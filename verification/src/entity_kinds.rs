//! The closed vocabularies of the promotion domain, each with its snake_case text form.
//! Parsing is case-insensitive; an unknown text is refused with a message naming the type.

use vstd::prelude::*;
use vstd::string::*;
use crate::text::{spec_to_lowercase, str_eq, str_to_lowercase};

verus! {

/// How an advertisement is billed.
#[derive(Debug, Clone, Copy, PartialEq, Eq, Hash, Structural)]
pub enum AdBillingModel {
    Cpm,
    Cpc,
    Cpa,
    FlatRate,
}

impl AdBillingModel {
    /// The snake_case text of this value.
    pub open spec fn text(&self) -> Seq<char> {
        match self {
            AdBillingModel::Cpm => "cpm"@,
            AdBillingModel::Cpc => "cpc"@,
            AdBillingModel::Cpa => "cpa"@,
            AdBillingModel::FlatRate => "flat_rate"@,
        }
    }

    /// The value whose text is exactly `s`, if any.
    pub open spec fn from_text(s: Seq<char>) -> Option<AdBillingModel> {
        if s == "cpm"@ {
            Some(AdBillingModel::Cpm)
        } else if s == "cpc"@ {
            Some(AdBillingModel::Cpc)
        } else if s == "cpa"@ {
            Some(AdBillingModel::Cpa)
        } else if s == "flat_rate"@ {
            Some(AdBillingModel::FlatRate)
        } else {
            None
        }
    }

    /// The snake_case text of this value.
    pub fn as_str(&self) -> (r: &'static str)
        ensures
            r@ == self.text(),
    {
        match self {
            AdBillingModel::Cpm => "cpm",
            AdBillingModel::Cpc => "cpc",
            AdBillingModel::Cpa => "cpa",
            AdBillingModel::FlatRate => "flat_rate",
        }
    }

    /// The snake_case text of this value, owned.
    pub fn to_string(&self) -> (r: String)
        ensures
            r@ == self.text(),
    {
        String::from_str(self.as_str())
    }

    /// The value whose text is exactly `s`, if any.
    pub fn from_lowercase(s: &str) -> (r: Option<AdBillingModel>)
        ensures
            r == AdBillingModel::from_text(s@),
    {
        if str_eq(s, "cpm") {
            Some(AdBillingModel::Cpm)
        } else if str_eq(s, "cpc") {
            Some(AdBillingModel::Cpc)
        } else if str_eq(s, "cpa") {
            Some(AdBillingModel::Cpa)
        } else if str_eq(s, "flat_rate") {
            Some(AdBillingModel::FlatRate)
        } else {
            None
        }
    }

    /// Parse `s` case-insensitively.
    pub fn from_str(s: &str) -> (r: Result<AdBillingModel, String>)
        ensures
            match AdBillingModel::from_text(spec_to_lowercase(s@)) {
                Some(v) => r == Ok::<AdBillingModel, String>(v),
                None => r is Err && r->Err_0@ == "Unknown AdBillingModel variant: "@ + s@,
            },
    {
        let lower = str_to_lowercase(s);
        match AdBillingModel::from_lowercase(lower.as_str()) {
            Some(v) => Ok(v),
            None => Err(String::from_str("Unknown AdBillingModel variant: ").concat(s)),
        }
    }
}

impl Default for AdBillingModel {
    fn default() -> (r: AdBillingModel)
        ensures
            r == AdBillingModel::Cpm,
    {
        AdBillingModel::Cpm
    }
}

/// Reading back the text of a value gives that value.
pub proof fn lemma_ad_billing_model_text_roundtrip(v: AdBillingModel)
    ensures
        AdBillingModel::from_text(v.text()) == Some(v),
{
    reveal_strlit("cpm"); reveal_strlit("cpc"); reveal_strlit("cpa"); reveal_strlit("flat_rate");
    assert("cpm"@[2] != "cpc"@[2]);
    assert("cpm"@[2] != "cpa"@[2]);
    assert("cpm"@.len() != "flat_rate"@.len());
    assert("cpc"@[2] != "cpa"@[2]);
    assert("cpc"@.len() != "flat_rate"@.len());
    assert("cpa"@.len() != "flat_rate"@.len());
}

/// Where an advertisement is shown.
#[derive(Debug, Clone, Copy, PartialEq, Eq, Hash, Structural)]
pub enum AdPlacement {
    HomeTop,
    HomeMiddle,
    SearchResults,
    ServiceDetail,
    Checkout,
    OrderComplete,
}

impl AdPlacement {
    /// The snake_case text of this value.
    pub open spec fn text(&self) -> Seq<char> {
        match self {
            AdPlacement::HomeTop => "home_top"@,
            AdPlacement::HomeMiddle => "home_middle"@,
            AdPlacement::SearchResults => "search_results"@,
            AdPlacement::ServiceDetail => "service_detail"@,
            AdPlacement::Checkout => "checkout"@,
            AdPlacement::OrderComplete => "order_complete"@,
        }
    }

    /// The value whose text is exactly `s`, if any.
    pub open spec fn from_text(s: Seq<char>) -> Option<AdPlacement> {
        if s == "home_top"@ {
            Some(AdPlacement::HomeTop)
        } else if s == "home_middle"@ {
            Some(AdPlacement::HomeMiddle)
        } else if s == "search_results"@ {
            Some(AdPlacement::SearchResults)
        } else if s == "service_detail"@ {
            Some(AdPlacement::ServiceDetail)
        } else if s == "checkout"@ {
            Some(AdPlacement::Checkout)
        } else if s == "order_complete"@ {
            Some(AdPlacement::OrderComplete)
        } else {
            None
        }
    }

    /// The snake_case text of this value.
    pub fn as_str(&self) -> (r: &'static str)
        ensures
            r@ == self.text(),
    {
        match self {
            AdPlacement::HomeTop => "home_top",
            AdPlacement::HomeMiddle => "home_middle",
            AdPlacement::SearchResults => "search_results",
            AdPlacement::ServiceDetail => "service_detail",
            AdPlacement::Checkout => "checkout",
            AdPlacement::OrderComplete => "order_complete",
        }
    }

    /// The snake_case text of this value, owned.
    pub fn to_string(&self) -> (r: String)
        ensures
            r@ == self.text(),
    {
        String::from_str(self.as_str())
    }

    /// The value whose text is exactly `s`, if any.
    pub fn from_lowercase(s: &str) -> (r: Option<AdPlacement>)
        ensures
            r == AdPlacement::from_text(s@),
    {
        if str_eq(s, "home_top") {
            Some(AdPlacement::HomeTop)
        } else if str_eq(s, "home_middle") {
            Some(AdPlacement::HomeMiddle)
        } else if str_eq(s, "search_results") {
            Some(AdPlacement::SearchResults)
        } else if str_eq(s, "service_detail") {
            Some(AdPlacement::ServiceDetail)
        } else if str_eq(s, "checkout") {
            Some(AdPlacement::Checkout)
        } else if str_eq(s, "order_complete") {
            Some(AdPlacement::OrderComplete)
        } else {
            None
        }
    }

    /// Parse `s` case-insensitively.
    pub fn from_str(s: &str) -> (r: Result<AdPlacement, String>)
        ensures
            match AdPlacement::from_text(spec_to_lowercase(s@)) {
                Some(v) => r == Ok::<AdPlacement, String>(v),
                None => r is Err && r->Err_0@ == "Unknown AdPlacement variant: "@ + s@,
            },
    {
        let lower = str_to_lowercase(s);
        match AdPlacement::from_lowercase(lower.as_str()) {
            Some(v) => Ok(v),
            None => Err(String::from_str("Unknown AdPlacement variant: ").concat(s)),
        }
    }
}

impl Default for AdPlacement {
    fn default() -> (r: AdPlacement)
        ensures
            r == AdPlacement::HomeTop,
    {
        AdPlacement::HomeTop
    }
}

/// Reading back the text of a value gives that value.
pub proof fn lemma_ad_placement_text_roundtrip(v: AdPlacement)
    ensures
        AdPlacement::from_text(v.text()) == Some(v),
{
    reveal_strlit("home_top"); reveal_strlit("home_middle"); reveal_strlit("search_results"); reveal_strlit("service_detail"); reveal_strlit("checkout"); reveal_strlit("order_complete");
    assert("home_top"@.len() != "home_middle"@.len());
    assert("home_top"@.len() != "search_results"@.len());
    assert("home_top"@.len() != "service_detail"@.len());
    assert("home_top"@[0] != "checkout"@[0]);
    assert("home_top"@.len() != "order_complete"@.len());
    assert("home_middle"@.len() != "search_results"@.len());
    assert("home_middle"@.len() != "service_detail"@.len());
    assert("home_middle"@.len() != "checkout"@.len());
    assert("home_middle"@.len() != "order_complete"@.len());
    assert("search_results"@[2] != "service_detail"@[2]);
    assert("search_results"@.len() != "checkout"@.len());
    assert("search_results"@[0] != "order_complete"@[0]);
    assert("service_detail"@.len() != "checkout"@.len());
    assert("service_detail"@[0] != "order_complete"@[0]);
    assert("checkout"@.len() != "order_complete"@.len());
}

/// The format of an advertisement.
#[derive(Debug, Clone, Copy, PartialEq, Eq, Hash, Structural)]
pub enum AdType {
    Banner,
    Featured,
    Promoted,
    Popup,
    Push,
    Sms,
    Email,
}

impl AdType {
    /// The snake_case text of this value.
    pub open spec fn text(&self) -> Seq<char> {
        match self {
            AdType::Banner => "banner"@,
            AdType::Featured => "featured"@,
            AdType::Promoted => "promoted"@,
            AdType::Popup => "popup"@,
            AdType::Push => "push"@,
            AdType::Sms => "sms"@,
            AdType::Email => "email"@,
        }
    }

    /// The value whose text is exactly `s`, if any.
    pub open spec fn from_text(s: Seq<char>) -> Option<AdType> {
        if s == "banner"@ {
            Some(AdType::Banner)
        } else if s == "featured"@ {
            Some(AdType::Featured)
        } else if s == "promoted"@ {
            Some(AdType::Promoted)
        } else if s == "popup"@ {
            Some(AdType::Popup)
        } else if s == "push"@ {
            Some(AdType::Push)
        } else if s == "sms"@ {
            Some(AdType::Sms)
        } else if s == "email"@ {
            Some(AdType::Email)
        } else {
            None
        }
    }

    /// The snake_case text of this value.
    pub fn as_str(&self) -> (r: &'static str)
        ensures
            r@ == self.text(),
    {
        match self {
            AdType::Banner => "banner",
            AdType::Featured => "featured",
            AdType::Promoted => "promoted",
            AdType::Popup => "popup",
            AdType::Push => "push",
            AdType::Sms => "sms",
            AdType::Email => "email",
        }
    }

    /// The snake_case text of this value, owned.
    pub fn to_string(&self) -> (r: String)
        ensures
            r@ == self.text(),
    {
        String::from_str(self.as_str())
    }

    /// The value whose text is exactly `s`, if any.
    pub fn from_lowercase(s: &str) -> (r: Option<AdType>)
        ensures
            r == AdType::from_text(s@),
    {
        if str_eq(s, "banner") {
            Some(AdType::Banner)
        } else if str_eq(s, "featured") {
            Some(AdType::Featured)
        } else if str_eq(s, "promoted") {
            Some(AdType::Promoted)
        } else if str_eq(s, "popup") {
            Some(AdType::Popup)
        } else if str_eq(s, "push") {
            Some(AdType::Push)
        } else if str_eq(s, "sms") {
            Some(AdType::Sms)
        } else if str_eq(s, "email") {
            Some(AdType::Email)
        } else {
            None
        }
    }

    /// Parse `s` case-insensitively.
    pub fn from_str(s: &str) -> (r: Result<AdType, String>)
        ensures
            match AdType::from_text(spec_to_lowercase(s@)) {
                Some(v) => r == Ok::<AdType, String>(v),
                None => r is Err && r->Err_0@ == "Unknown AdType variant: "@ + s@,
            },
    {
        let lower = str_to_lowercase(s);
        match AdType::from_lowercase(lower.as_str()) {
            Some(v) => Ok(v),
            None => Err(String::from_str("Unknown AdType variant: ").concat(s)),
        }
    }
}

impl Default for AdType {
    fn default() -> (r: AdType)
        ensures
            r == AdType::Banner,
    {
        AdType::Banner
    }
}

/// Reading back the text of a value gives that value.
pub proof fn lemma_ad_type_text_roundtrip(v: AdType)
    ensures
        AdType::from_text(v.text()) == Some(v),
{
    reveal_strlit("banner"); reveal_strlit("featured"); reveal_strlit("promoted"); reveal_strlit("popup"); reveal_strlit("push"); reveal_strlit("sms"); reveal_strlit("email");
    assert("banner"@.len() != "featured"@.len());
    assert("banner"@.len() != "promoted"@.len());
    assert("banner"@.len() != "popup"@.len());
    assert("banner"@.len() != "push"@.len());
    assert("banner"@.len() != "sms"@.len());
    assert("banner"@.len() != "email"@.len());
    assert("featured"@[0] != "promoted"@[0]);
    assert("featured"@.len() != "popup"@.len());
    assert("featured"@.len() != "push"@.len());
    assert("featured"@.len() != "sms"@.len());
    assert("featured"@.len() != "email"@.len());
    assert("promoted"@.len() != "popup"@.len());
    assert("promoted"@.len() != "push"@.len());
    assert("promoted"@.len() != "sms"@.len());
    assert("promoted"@.len() != "email"@.len());
    assert("popup"@.len() != "push"@.len());
    assert("popup"@.len() != "sms"@.len());
    assert("popup"@[0] != "email"@[0]);
    assert("push"@.len() != "sms"@.len());
    assert("push"@.len() != "email"@.len());
    assert("sms"@.len() != "email"@.len());
}

/// What a pricing rule or bundle component selects.
#[derive(Debug, Clone, Copy, PartialEq, Eq, Hash, Structural)]
pub enum ApplyOn {
    Item,
    ItemGroup,
    Brand,
    All,
}

impl ApplyOn {
    /// The snake_case text of this value.
    pub open spec fn text(&self) -> Seq<char> {
        match self {
            ApplyOn::Item => "item"@,
            ApplyOn::ItemGroup => "item_group"@,
            ApplyOn::Brand => "brand"@,
            ApplyOn::All => "all"@,
        }
    }

    /// The value whose text is exactly `s`, if any.
    pub open spec fn from_text(s: Seq<char>) -> Option<ApplyOn> {
        if s == "item"@ {
            Some(ApplyOn::Item)
        } else if s == "item_group"@ {
            Some(ApplyOn::ItemGroup)
        } else if s == "brand"@ {
            Some(ApplyOn::Brand)
        } else if s == "all"@ {
            Some(ApplyOn::All)
        } else {
            None
        }
    }

    /// The snake_case text of this value.
    pub fn as_str(&self) -> (r: &'static str)
        ensures
            r@ == self.text(),
    {
        match self {
            ApplyOn::Item => "item",
            ApplyOn::ItemGroup => "item_group",
            ApplyOn::Brand => "brand",
            ApplyOn::All => "all",
        }
    }

    /// The snake_case text of this value, owned.
    pub fn to_string(&self) -> (r: String)
        ensures
            r@ == self.text(),
    {
        String::from_str(self.as_str())
    }

    /// The value whose text is exactly `s`, if any.
    pub fn from_lowercase(s: &str) -> (r: Option<ApplyOn>)
        ensures
            r == ApplyOn::from_text(s@),
    {
        if str_eq(s, "item") {
            Some(ApplyOn::Item)
        } else if str_eq(s, "item_group") {
            Some(ApplyOn::ItemGroup)
        } else if str_eq(s, "brand") {
            Some(ApplyOn::Brand)
        } else if str_eq(s, "all") {
            Some(ApplyOn::All)
        } else {
            None
        }
    }

    /// Parse `s` case-insensitively.
    pub fn from_str(s: &str) -> (r: Result<ApplyOn, String>)
        ensures
            match ApplyOn::from_text(spec_to_lowercase(s@)) {
                Some(v) => r == Ok::<ApplyOn, String>(v),
                None => r is Err && r->Err_0@ == "Unknown ApplyOn variant: "@ + s@,
            },
    {
        let lower = str_to_lowercase(s);
        match ApplyOn::from_lowercase(lower.as_str()) {
            Some(v) => Ok(v),
            None => Err(String::from_str("Unknown ApplyOn variant: ").concat(s)),
        }
    }
}

impl Default for ApplyOn {
    fn default() -> (r: ApplyOn)
        ensures
            r == ApplyOn::Item,
    {
        ApplyOn::Item
    }
}

/// Reading back the text of a value gives that value.
pub proof fn lemma_apply_on_text_roundtrip(v: ApplyOn)
    ensures
        ApplyOn::from_text(v.text()) == Some(v),
{
    reveal_strlit("item"); reveal_strlit("item_group"); reveal_strlit("brand"); reveal_strlit("all");
    assert("item"@.len() != "item_group"@.len());
    assert("item"@.len() != "brand"@.len());
    assert("item"@.len() != "all"@.len());
    assert("item_group"@.len() != "brand"@.len());
    assert("item_group"@.len() != "all"@.len());
    assert("brand"@.len() != "all"@.len());
}

/// How a bundle's components must be present.
#[derive(Debug, Clone, Copy, PartialEq, Eq, Hash, Structural)]
pub enum BundleMatch {
    AllOf,
    AnyN,
}

impl BundleMatch {
    /// The snake_case text of this value.
    pub open spec fn text(&self) -> Seq<char> {
        match self {
            BundleMatch::AllOf => "all_of"@,
            BundleMatch::AnyN => "any_n"@,
        }
    }

    /// The value whose text is exactly `s`, if any.
    pub open spec fn from_text(s: Seq<char>) -> Option<BundleMatch> {
        if s == "all_of"@ {
            Some(BundleMatch::AllOf)
        } else if s == "any_n"@ {
            Some(BundleMatch::AnyN)
        } else {
            None
        }
    }

    /// The snake_case text of this value.
    pub fn as_str(&self) -> (r: &'static str)
        ensures
            r@ == self.text(),
    {
        match self {
            BundleMatch::AllOf => "all_of",
            BundleMatch::AnyN => "any_n",
        }
    }

    /// The snake_case text of this value, owned.
    pub fn to_string(&self) -> (r: String)
        ensures
            r@ == self.text(),
    {
        String::from_str(self.as_str())
    }

    /// The value whose text is exactly `s`, if any.
    pub fn from_lowercase(s: &str) -> (r: Option<BundleMatch>)
        ensures
            r == BundleMatch::from_text(s@),
    {
        if str_eq(s, "all_of") {
            Some(BundleMatch::AllOf)
        } else if str_eq(s, "any_n") {
            Some(BundleMatch::AnyN)
        } else {
            None
        }
    }

    /// Parse `s` case-insensitively.
    pub fn from_str(s: &str) -> (r: Result<BundleMatch, String>)
        ensures
            match BundleMatch::from_text(spec_to_lowercase(s@)) {
                Some(v) => r == Ok::<BundleMatch, String>(v),
                None => r is Err && r->Err_0@ == "Unknown BundleMatch variant: "@ + s@,
            },
    {
        let lower = str_to_lowercase(s);
        match BundleMatch::from_lowercase(lower.as_str()) {
            Some(v) => Ok(v),
            None => Err(String::from_str("Unknown BundleMatch variant: ").concat(s)),
        }
    }
}

impl Default for BundleMatch {
    fn default() -> (r: BundleMatch)
        ensures
            r == BundleMatch::AllOf,
    {
        BundleMatch::AllOf
    }
}

/// Reading back the text of a value gives that value.
pub proof fn lemma_bundle_match_text_roundtrip(v: BundleMatch)
    ensures
        BundleMatch::from_text(v.text()) == Some(v),
{
    reveal_strlit("all_of"); reveal_strlit("any_n");
    assert("all_of"@.len() != "any_n"@.len());
}

/// Who pays for a campaign.
#[derive(Debug, Clone, Copy, PartialEq, Eq, Hash, Structural)]
pub enum CampaignFunder {
    Platform,
    Provider,
    Shared,
}

impl CampaignFunder {
    /// The snake_case text of this value.
    pub open spec fn text(&self) -> Seq<char> {
        match self {
            CampaignFunder::Platform => "platform"@,
            CampaignFunder::Provider => "provider"@,
            CampaignFunder::Shared => "shared"@,
        }
    }

    /// The value whose text is exactly `s`, if any.
    pub open spec fn from_text(s: Seq<char>) -> Option<CampaignFunder> {
        if s == "platform"@ {
            Some(CampaignFunder::Platform)
        } else if s == "provider"@ {
            Some(CampaignFunder::Provider)
        } else if s == "shared"@ {
            Some(CampaignFunder::Shared)
        } else {
            None
        }
    }

    /// The snake_case text of this value.
    pub fn as_str(&self) -> (r: &'static str)
        ensures
            r@ == self.text(),
    {
        match self {
            CampaignFunder::Platform => "platform",
            CampaignFunder::Provider => "provider",
            CampaignFunder::Shared => "shared",
        }
    }

    /// The snake_case text of this value, owned.
    pub fn to_string(&self) -> (r: String)
        ensures
            r@ == self.text(),
    {
        String::from_str(self.as_str())
    }

    /// The value whose text is exactly `s`, if any.
    pub fn from_lowercase(s: &str) -> (r: Option<CampaignFunder>)
        ensures
            r == CampaignFunder::from_text(s@),
    {
        if str_eq(s, "platform") {
            Some(CampaignFunder::Platform)
        } else if str_eq(s, "provider") {
            Some(CampaignFunder::Provider)
        } else if str_eq(s, "shared") {
            Some(CampaignFunder::Shared)
        } else {
            None
        }
    }

    /// Parse `s` case-insensitively.
    pub fn from_str(s: &str) -> (r: Result<CampaignFunder, String>)
        ensures
            match CampaignFunder::from_text(spec_to_lowercase(s@)) {
                Some(v) => r == Ok::<CampaignFunder, String>(v),
                None => r is Err && r->Err_0@ == "Unknown CampaignFunder variant: "@ + s@,
            },
    {
        let lower = str_to_lowercase(s);
        match CampaignFunder::from_lowercase(lower.as_str()) {
            Some(v) => Ok(v),
            None => Err(String::from_str("Unknown CampaignFunder variant: ").concat(s)),
        }
    }
}

impl Default for CampaignFunder {
    fn default() -> (r: CampaignFunder)
        ensures
            r == CampaignFunder::Platform,
    {
        CampaignFunder::Platform
    }
}

/// Reading back the text of a value gives that value.
pub proof fn lemma_campaign_funder_text_roundtrip(v: CampaignFunder)
    ensures
        CampaignFunder::from_text(v.text()) == Some(v),
{
    reveal_strlit("platform"); reveal_strlit("provider"); reveal_strlit("shared");
    assert("platform"@[1] != "provider"@[1]);
    assert("platform"@.len() != "shared"@.len());
    assert("provider"@.len() != "shared"@.len());
}

/// The benefit a campaign grants.
#[derive(Debug, Clone, Copy, PartialEq, Eq, Hash, Structural)]
pub enum CampaignPromoType {
    Percentage,
    FixedAmount,
    FreeDelivery,
    FreeItem,
    Cashback,
    Bundle,
}

impl CampaignPromoType {
    /// The snake_case text of this value.
    pub open spec fn text(&self) -> Seq<char> {
        match self {
            CampaignPromoType::Percentage => "percentage"@,
            CampaignPromoType::FixedAmount => "fixed_amount"@,
            CampaignPromoType::FreeDelivery => "free_delivery"@,
            CampaignPromoType::FreeItem => "free_item"@,
            CampaignPromoType::Cashback => "cashback"@,
            CampaignPromoType::Bundle => "bundle"@,
        }
    }

    /// The value whose text is exactly `s`, if any.
    pub open spec fn from_text(s: Seq<char>) -> Option<CampaignPromoType> {
        if s == "percentage"@ {
            Some(CampaignPromoType::Percentage)
        } else if s == "fixed_amount"@ {
            Some(CampaignPromoType::FixedAmount)
        } else if s == "free_delivery"@ {
            Some(CampaignPromoType::FreeDelivery)
        } else if s == "free_item"@ {
            Some(CampaignPromoType::FreeItem)
        } else if s == "cashback"@ {
            Some(CampaignPromoType::Cashback)
        } else if s == "bundle"@ {
            Some(CampaignPromoType::Bundle)
        } else {
            None
        }
    }

    /// The snake_case text of this value.
    pub fn as_str(&self) -> (r: &'static str)
        ensures
            r@ == self.text(),
    {
        match self {
            CampaignPromoType::Percentage => "percentage",
            CampaignPromoType::FixedAmount => "fixed_amount",
            CampaignPromoType::FreeDelivery => "free_delivery",
            CampaignPromoType::FreeItem => "free_item",
            CampaignPromoType::Cashback => "cashback",
            CampaignPromoType::Bundle => "bundle",
        }
    }

    /// The snake_case text of this value, owned.
    pub fn to_string(&self) -> (r: String)
        ensures
            r@ == self.text(),
    {
        String::from_str(self.as_str())
    }

    /// The value whose text is exactly `s`, if any.
    pub fn from_lowercase(s: &str) -> (r: Option<CampaignPromoType>)
        ensures
            r == CampaignPromoType::from_text(s@),
    {
        if str_eq(s, "percentage") {
            Some(CampaignPromoType::Percentage)
        } else if str_eq(s, "fixed_amount") {
            Some(CampaignPromoType::FixedAmount)
        } else if str_eq(s, "free_delivery") {
            Some(CampaignPromoType::FreeDelivery)
        } else if str_eq(s, "free_item") {
            Some(CampaignPromoType::FreeItem)
        } else if str_eq(s, "cashback") {
            Some(CampaignPromoType::Cashback)
        } else if str_eq(s, "bundle") {
            Some(CampaignPromoType::Bundle)
        } else {
            None
        }
    }

    /// Parse `s` case-insensitively.
    pub fn from_str(s: &str) -> (r: Result<CampaignPromoType, String>)
        ensures
            match CampaignPromoType::from_text(spec_to_lowercase(s@)) {
                Some(v) => r == Ok::<CampaignPromoType, String>(v),
                None => r is Err && r->Err_0@ == "Unknown CampaignPromoType variant: "@ + s@,
            },
    {
        let lower = str_to_lowercase(s);
        match CampaignPromoType::from_lowercase(lower.as_str()) {
            Some(v) => Ok(v),
            None => Err(String::from_str("Unknown CampaignPromoType variant: ").concat(s)),
        }
    }
}

impl Default for CampaignPromoType {
    fn default() -> (r: CampaignPromoType)
        ensures
            r == CampaignPromoType::Percentage,
    {
        CampaignPromoType::Percentage
    }
}

/// Reading back the text of a value gives that value.
pub proof fn lemma_campaign_promo_type_text_roundtrip(v: CampaignPromoType)
    ensures
        CampaignPromoType::from_text(v.text()) == Some(v),
{
    reveal_strlit("percentage"); reveal_strlit("fixed_amount"); reveal_strlit("free_delivery"); reveal_strlit("free_item"); reveal_strlit("cashback"); reveal_strlit("bundle");
    assert("percentage"@.len() != "fixed_amount"@.len());
    assert("percentage"@.len() != "free_delivery"@.len());
    assert("percentage"@.len() != "free_item"@.len());
    assert("percentage"@.len() != "cashback"@.len());
    assert("percentage"@.len() != "bundle"@.len());
    assert("fixed_amount"@.len() != "free_delivery"@.len());
    assert("fixed_amount"@.len() != "free_item"@.len());
    assert("fixed_amount"@.len() != "cashback"@.len());
    assert("fixed_amount"@.len() != "bundle"@.len());
    assert("free_delivery"@.len() != "free_item"@.len());
    assert("free_delivery"@.len() != "cashback"@.len());
    assert("free_delivery"@.len() != "bundle"@.len());
    assert("free_item"@.len() != "cashback"@.len());
    assert("free_item"@.len() != "bundle"@.len());
    assert("cashback"@.len() != "bundle"@.len());
}

/// Lifecycle state of a campaign.
#[derive(Debug, Clone, Copy, PartialEq, Eq, Hash, Structural)]
pub enum CampaignStatus {
    Draft,
    Scheduled,
    Active,
    Paused,
    Ended,
    Cancelled,
}

impl CampaignStatus {
    /// The snake_case text of this value.
    pub open spec fn text(&self) -> Seq<char> {
        match self {
            CampaignStatus::Draft => "draft"@,
            CampaignStatus::Scheduled => "scheduled"@,
            CampaignStatus::Active => "active"@,
            CampaignStatus::Paused => "paused"@,
            CampaignStatus::Ended => "ended"@,
            CampaignStatus::Cancelled => "cancelled"@,
        }
    }

    /// The value whose text is exactly `s`, if any.
    pub open spec fn from_text(s: Seq<char>) -> Option<CampaignStatus> {
        if s == "draft"@ {
            Some(CampaignStatus::Draft)
        } else if s == "scheduled"@ {
            Some(CampaignStatus::Scheduled)
        } else if s == "active"@ {
            Some(CampaignStatus::Active)
        } else if s == "paused"@ {
            Some(CampaignStatus::Paused)
        } else if s == "ended"@ {
            Some(CampaignStatus::Ended)
        } else if s == "cancelled"@ {
            Some(CampaignStatus::Cancelled)
        } else {
            None
        }
    }

    /// The snake_case text of this value.
    pub fn as_str(&self) -> (r: &'static str)
        ensures
            r@ == self.text(),
    {
        match self {
            CampaignStatus::Draft => "draft",
            CampaignStatus::Scheduled => "scheduled",
            CampaignStatus::Active => "active",
            CampaignStatus::Paused => "paused",
            CampaignStatus::Ended => "ended",
            CampaignStatus::Cancelled => "cancelled",
        }
    }

    /// The snake_case text of this value, owned.
    pub fn to_string(&self) -> (r: String)
        ensures
            r@ == self.text(),
    {
        String::from_str(self.as_str())
    }

    /// The value whose text is exactly `s`, if any.
    pub fn from_lowercase(s: &str) -> (r: Option<CampaignStatus>)
        ensures
            r == CampaignStatus::from_text(s@),
    {
        if str_eq(s, "draft") {
            Some(CampaignStatus::Draft)
        } else if str_eq(s, "scheduled") {
            Some(CampaignStatus::Scheduled)
        } else if str_eq(s, "active") {
            Some(CampaignStatus::Active)
        } else if str_eq(s, "paused") {
            Some(CampaignStatus::Paused)
        } else if str_eq(s, "ended") {
            Some(CampaignStatus::Ended)
        } else if str_eq(s, "cancelled") {
            Some(CampaignStatus::Cancelled)
        } else {
            None
        }
    }

    /// Parse `s` case-insensitively.
    pub fn from_str(s: &str) -> (r: Result<CampaignStatus, String>)
        ensures
            match CampaignStatus::from_text(spec_to_lowercase(s@)) {
                Some(v) => r == Ok::<CampaignStatus, String>(v),
                None => r is Err && r->Err_0@ == "Unknown CampaignStatus variant: "@ + s@,
            },
    {
        let lower = str_to_lowercase(s);
        match CampaignStatus::from_lowercase(lower.as_str()) {
            Some(v) => Ok(v),
            None => Err(String::from_str("Unknown CampaignStatus variant: ").concat(s)),
        }
    }
}

impl Default for CampaignStatus {
    fn default() -> (r: CampaignStatus)
        ensures
            r == CampaignStatus::Draft,
    {
        CampaignStatus::Draft
    }
}

/// Reading back the text of a value gives that value.
pub proof fn lemma_campaign_status_text_roundtrip(v: CampaignStatus)
    ensures
        CampaignStatus::from_text(v.text()) == Some(v),
{
    reveal_strlit("draft"); reveal_strlit("scheduled"); reveal_strlit("active"); reveal_strlit("paused"); reveal_strlit("ended"); reveal_strlit("cancelled");
    assert("draft"@.len() != "scheduled"@.len());
    assert("draft"@.len() != "active"@.len());
    assert("draft"@.len() != "paused"@.len());
    assert("draft"@[0] != "ended"@[0]);
    assert("draft"@.len() != "cancelled"@.len());
    assert("scheduled"@.len() != "active"@.len());
    assert("scheduled"@.len() != "paused"@.len());
    assert("scheduled"@.len() != "ended"@.len());
    assert("scheduled"@[0] != "cancelled"@[0]);
    assert("active"@[0] != "paused"@[0]);
    assert("active"@.len() != "ended"@.len());
    assert("active"@.len() != "cancelled"@.len());
    assert("paused"@.len() != "ended"@.len());
    assert("paused"@.len() != "cancelled"@.len());
    assert("ended"@.len() != "cancelled"@.len());
}

/// The audience a campaign targets.
#[derive(Debug, Clone, Copy, PartialEq, Eq, Hash, Structural)]
pub enum CampaignTarget {
    All,
    NewUsers,
    Returning,
    Inactive,
    Specific,
    Loyal,
}

impl CampaignTarget {
    /// The snake_case text of this value.
    pub open spec fn text(&self) -> Seq<char> {
        match self {
            CampaignTarget::All => "all"@,
            CampaignTarget::NewUsers => "new_users"@,
            CampaignTarget::Returning => "returning"@,
            CampaignTarget::Inactive => "inactive"@,
            CampaignTarget::Specific => "specific"@,
            CampaignTarget::Loyal => "loyal"@,
        }
    }

    /// The value whose text is exactly `s`, if any.
    pub open spec fn from_text(s: Seq<char>) -> Option<CampaignTarget> {
        if s == "all"@ {
            Some(CampaignTarget::All)
        } else if s == "new_users"@ {
            Some(CampaignTarget::NewUsers)
        } else if s == "returning"@ {
            Some(CampaignTarget::Returning)
        } else if s == "inactive"@ {
            Some(CampaignTarget::Inactive)
        } else if s == "specific"@ {
            Some(CampaignTarget::Specific)
        } else if s == "loyal"@ {
            Some(CampaignTarget::Loyal)
        } else {
            None
        }
    }

    /// The snake_case text of this value.
    pub fn as_str(&self) -> (r: &'static str)
        ensures
            r@ == self.text(),
    {
        match self {
            CampaignTarget::All => "all",
            CampaignTarget::NewUsers => "new_users",
            CampaignTarget::Returning => "returning",
            CampaignTarget::Inactive => "inactive",
            CampaignTarget::Specific => "specific",
            CampaignTarget::Loyal => "loyal",
        }
    }

    /// The snake_case text of this value, owned.
    pub fn to_string(&self) -> (r: String)
        ensures
            r@ == self.text(),
    {
        String::from_str(self.as_str())
    }

    /// The value whose text is exactly `s`, if any.
    pub fn from_lowercase(s: &str) -> (r: Option<CampaignTarget>)
        ensures
            r == CampaignTarget::from_text(s@),
    {
        if str_eq(s, "all") {
            Some(CampaignTarget::All)
        } else if str_eq(s, "new_users") {
            Some(CampaignTarget::NewUsers)
        } else if str_eq(s, "returning") {
            Some(CampaignTarget::Returning)
        } else if str_eq(s, "inactive") {
            Some(CampaignTarget::Inactive)
        } else if str_eq(s, "specific") {
            Some(CampaignTarget::Specific)
        } else if str_eq(s, "loyal") {
            Some(CampaignTarget::Loyal)
        } else {
            None
        }
    }

    /// Parse `s` case-insensitively.
    pub fn from_str(s: &str) -> (r: Result<CampaignTarget, String>)
        ensures
            match CampaignTarget::from_text(spec_to_lowercase(s@)) {
                Some(v) => r == Ok::<CampaignTarget, String>(v),
                None => r is Err && r->Err_0@ == "Unknown CampaignTarget variant: "@ + s@,
            },
    {
        let lower = str_to_lowercase(s);
        match CampaignTarget::from_lowercase(lower.as_str()) {
            Some(v) => Ok(v),
            None => Err(String::from_str("Unknown CampaignTarget variant: ").concat(s)),
        }
    }
}

impl Default for CampaignTarget {
    fn default() -> (r: CampaignTarget)
        ensures
            r == CampaignTarget::All,
    {
        CampaignTarget::All
    }
}

/// Reading back the text of a value gives that value.
pub proof fn lemma_campaign_target_text_roundtrip(v: CampaignTarget)
    ensures
        CampaignTarget::from_text(v.text()) == Some(v),
{
    reveal_strlit("all"); reveal_strlit("new_users"); reveal_strlit("returning"); reveal_strlit("inactive"); reveal_strlit("specific"); reveal_strlit("loyal");
    assert("all"@.len() != "new_users"@.len());
    assert("all"@.len() != "returning"@.len());
    assert("all"@.len() != "inactive"@.len());
    assert("all"@.len() != "specific"@.len());
    assert("all"@.len() != "loyal"@.len());
    assert("new_users"@[0] != "returning"@[0]);
    assert("new_users"@.len() != "inactive"@.len());
    assert("new_users"@.len() != "specific"@.len());
    assert("new_users"@.len() != "loyal"@.len());
    assert("returning"@.len() != "inactive"@.len());
    assert("returning"@.len() != "specific"@.len());
    assert("returning"@.len() != "loyal"@.len());
    assert("inactive"@[0] != "specific"@[0]);
    assert("inactive"@.len() != "loyal"@.len());
    assert("specific"@.len() != "loyal"@.len());
}

/// Kind of loyalty ledger entry.
#[derive(Debug, Clone, Copy, PartialEq, Eq, Hash, Structural)]
pub enum LoyaltyEntryType {
    Earned,
    Redeemed,
    Expired,
}

impl LoyaltyEntryType {
    /// The snake_case text of this value.
    pub open spec fn text(&self) -> Seq<char> {
        match self {
            LoyaltyEntryType::Earned => "earned"@,
            LoyaltyEntryType::Redeemed => "redeemed"@,
            LoyaltyEntryType::Expired => "expired"@,
        }
    }

    /// The value whose text is exactly `s`, if any.
    pub open spec fn from_text(s: Seq<char>) -> Option<LoyaltyEntryType> {
        if s == "earned"@ {
            Some(LoyaltyEntryType::Earned)
        } else if s == "redeemed"@ {
            Some(LoyaltyEntryType::Redeemed)
        } else if s == "expired"@ {
            Some(LoyaltyEntryType::Expired)
        } else {
            None
        }
    }

    /// The snake_case text of this value.
    pub fn as_str(&self) -> (r: &'static str)
        ensures
            r@ == self.text(),
    {
        match self {
            LoyaltyEntryType::Earned => "earned",
            LoyaltyEntryType::Redeemed => "redeemed",
            LoyaltyEntryType::Expired => "expired",
        }
    }

    /// The snake_case text of this value, owned.
    pub fn to_string(&self) -> (r: String)
        ensures
            r@ == self.text(),
    {
        String::from_str(self.as_str())
    }

    /// The value whose text is exactly `s`, if any.
    pub fn from_lowercase(s: &str) -> (r: Option<LoyaltyEntryType>)
        ensures
            r == LoyaltyEntryType::from_text(s@),
    {
        if str_eq(s, "earned") {
            Some(LoyaltyEntryType::Earned)
        } else if str_eq(s, "redeemed") {
            Some(LoyaltyEntryType::Redeemed)
        } else if str_eq(s, "expired") {
            Some(LoyaltyEntryType::Expired)
        } else {
            None
        }
    }

    /// Parse `s` case-insensitively.
    pub fn from_str(s: &str) -> (r: Result<LoyaltyEntryType, String>)
        ensures
            match LoyaltyEntryType::from_text(spec_to_lowercase(s@)) {
                Some(v) => r == Ok::<LoyaltyEntryType, String>(v),
                None => r is Err && r->Err_0@ == "Unknown LoyaltyEntryType variant: "@ + s@,
            },
    {
        let lower = str_to_lowercase(s);
        match LoyaltyEntryType::from_lowercase(lower.as_str()) {
            Some(v) => Ok(v),
            None => Err(String::from_str("Unknown LoyaltyEntryType variant: ").concat(s)),
        }
    }
}

impl Default for LoyaltyEntryType {
    fn default() -> (r: LoyaltyEntryType)
        ensures
            r == LoyaltyEntryType::Earned,
    {
        LoyaltyEntryType::Earned
    }
}

/// Reading back the text of a value gives that value.
pub proof fn lemma_loyalty_entry_type_text_roundtrip(v: LoyaltyEntryType)
    ensures
        LoyaltyEntryType::from_text(v.text()) == Some(v),
{
    reveal_strlit("earned"); reveal_strlit("redeemed"); reveal_strlit("expired");
    assert("earned"@.len() != "redeemed"@.len());
    assert("earned"@.len() != "expired"@.len());
    assert("redeemed"@.len() != "expired"@.len());
}

/// Structure of a loyalty program.
#[derive(Debug, Clone, Copy, PartialEq, Eq, Hash, Structural)]
pub enum LoyaltyProgramType {
    SingleTier,
    MultipleTier,
}

impl LoyaltyProgramType {
    /// The snake_case text of this value.
    pub open spec fn text(&self) -> Seq<char> {
        match self {
            LoyaltyProgramType::SingleTier => "single_tier"@,
            LoyaltyProgramType::MultipleTier => "multiple_tier"@,
        }
    }

    /// The value whose text is exactly `s`, if any.
    pub open spec fn from_text(s: Seq<char>) -> Option<LoyaltyProgramType> {
        if s == "single_tier"@ {
            Some(LoyaltyProgramType::SingleTier)
        } else if s == "multiple_tier"@ {
            Some(LoyaltyProgramType::MultipleTier)
        } else {
            None
        }
    }

    /// The snake_case text of this value.
    pub fn as_str(&self) -> (r: &'static str)
        ensures
            r@ == self.text(),
    {
        match self {
            LoyaltyProgramType::SingleTier => "single_tier",
            LoyaltyProgramType::MultipleTier => "multiple_tier",
        }
    }

    /// The snake_case text of this value, owned.
    pub fn to_string(&self) -> (r: String)
        ensures
            r@ == self.text(),
    {
        String::from_str(self.as_str())
    }

    /// The value whose text is exactly `s`, if any.
    pub fn from_lowercase(s: &str) -> (r: Option<LoyaltyProgramType>)
        ensures
            r == LoyaltyProgramType::from_text(s@),
    {
        if str_eq(s, "single_tier") {
            Some(LoyaltyProgramType::SingleTier)
        } else if str_eq(s, "multiple_tier") {
            Some(LoyaltyProgramType::MultipleTier)
        } else {
            None
        }
    }

    /// Parse `s` case-insensitively.
    pub fn from_str(s: &str) -> (r: Result<LoyaltyProgramType, String>)
        ensures
            match LoyaltyProgramType::from_text(spec_to_lowercase(s@)) {
                Some(v) => r == Ok::<LoyaltyProgramType, String>(v),
                None => r is Err && r->Err_0@ == "Unknown LoyaltyProgramType variant: "@ + s@,
            },
    {
        let lower = str_to_lowercase(s);
        match LoyaltyProgramType::from_lowercase(lower.as_str()) {
            Some(v) => Ok(v),
            None => Err(String::from_str("Unknown LoyaltyProgramType variant: ").concat(s)),
        }
    }
}

impl Default for LoyaltyProgramType {
    fn default() -> (r: LoyaltyProgramType)
        ensures
            r == LoyaltyProgramType::SingleTier,
    {
        LoyaltyProgramType::SingleTier
    }
}

/// Reading back the text of a value gives that value.
pub proof fn lemma_loyalty_program_type_text_roundtrip(v: LoyaltyProgramType)
    ensures
        LoyaltyProgramType::from_text(v.text()) == Some(v),
{
    reveal_strlit("single_tier"); reveal_strlit("multiple_tier");
    assert("single_tier"@.len() != "multiple_tier"@.len());
}

/// Who may use a provider promotion.
#[derive(Debug, Clone, Copy, PartialEq, Eq, Hash, Structural)]
pub enum PromoEligibility {
    All,
    NewCustomer,
    ReturningCustomer,
    LoyaltyMember,
    SpecificTiers,
}

impl PromoEligibility {
    /// The snake_case text of this value.
    pub open spec fn text(&self) -> Seq<char> {
        match self {
            PromoEligibility::All => "all"@,
            PromoEligibility::NewCustomer => "new_customer"@,
            PromoEligibility::ReturningCustomer => "returning_customer"@,
            PromoEligibility::LoyaltyMember => "loyalty_member"@,
            PromoEligibility::SpecificTiers => "specific_tiers"@,
        }
    }

    /// The value whose text is exactly `s`, if any.
    pub open spec fn from_text(s: Seq<char>) -> Option<PromoEligibility> {
        if s == "all"@ {
            Some(PromoEligibility::All)
        } else if s == "new_customer"@ {
            Some(PromoEligibility::NewCustomer)
        } else if s == "returning_customer"@ {
            Some(PromoEligibility::ReturningCustomer)
        } else if s == "loyalty_member"@ {
            Some(PromoEligibility::LoyaltyMember)
        } else if s == "specific_tiers"@ {
            Some(PromoEligibility::SpecificTiers)
        } else {
            None
        }
    }

    /// The snake_case text of this value.
    pub fn as_str(&self) -> (r: &'static str)
        ensures
            r@ == self.text(),
    {
        match self {
            PromoEligibility::All => "all",
            PromoEligibility::NewCustomer => "new_customer",
            PromoEligibility::ReturningCustomer => "returning_customer",
            PromoEligibility::LoyaltyMember => "loyalty_member",
            PromoEligibility::SpecificTiers => "specific_tiers",
        }
    }

    /// The snake_case text of this value, owned.
    pub fn to_string(&self) -> (r: String)
        ensures
            r@ == self.text(),
    {
        String::from_str(self.as_str())
    }

    /// The value whose text is exactly `s`, if any.
    pub fn from_lowercase(s: &str) -> (r: Option<PromoEligibility>)
        ensures
            r == PromoEligibility::from_text(s@),
    {
        if str_eq(s, "all") {
            Some(PromoEligibility::All)
        } else if str_eq(s, "new_customer") {
            Some(PromoEligibility::NewCustomer)
        } else if str_eq(s, "returning_customer") {
            Some(PromoEligibility::ReturningCustomer)
        } else if str_eq(s, "loyalty_member") {
            Some(PromoEligibility::LoyaltyMember)
        } else if str_eq(s, "specific_tiers") {
            Some(PromoEligibility::SpecificTiers)
        } else {
            None
        }
    }

    /// Parse `s` case-insensitively.
    pub fn from_str(s: &str) -> (r: Result<PromoEligibility, String>)
        ensures
            match PromoEligibility::from_text(spec_to_lowercase(s@)) {
                Some(v) => r == Ok::<PromoEligibility, String>(v),
                None => r is Err && r->Err_0@ == "Unknown PromoEligibility variant: "@ + s@,
            },
    {
        let lower = str_to_lowercase(s);
        match PromoEligibility::from_lowercase(lower.as_str()) {
            Some(v) => Ok(v),
            None => Err(String::from_str("Unknown PromoEligibility variant: ").concat(s)),
        }
    }
}

impl Default for PromoEligibility {
    fn default() -> (r: PromoEligibility)
        ensures
            r == PromoEligibility::All,
    {
        PromoEligibility::All
    }
}

/// Reading back the text of a value gives that value.
pub proof fn lemma_promo_eligibility_text_roundtrip(v: PromoEligibility)
    ensures
        PromoEligibility::from_text(v.text()) == Some(v),
{
    reveal_strlit("all"); reveal_strlit("new_customer"); reveal_strlit("returning_customer"); reveal_strlit("loyalty_member"); reveal_strlit("specific_tiers");
    assert("all"@.len() != "new_customer"@.len());
    assert("all"@.len() != "returning_customer"@.len());
    assert("all"@.len() != "loyalty_member"@.len());
    assert("all"@.len() != "specific_tiers"@.len());
    assert("new_customer"@.len() != "returning_customer"@.len());
    assert("new_customer"@.len() != "loyalty_member"@.len());
    assert("new_customer"@.len() != "specific_tiers"@.len());
    assert("returning_customer"@.len() != "loyalty_member"@.len());
    assert("returning_customer"@.len() != "specific_tiers"@.len());
    assert("loyalty_member"@[0] != "specific_tiers"@[0]);
}

/// The benefit a provider promotion grants.
#[derive(Debug, Clone, Copy, PartialEq, Eq, Hash, Structural)]
pub enum PromoType {
    Percentage,
    FixedAmount,
    FreeDelivery,
    FreePickup,
    BuyXGetY,
    Cashback,
}

impl PromoType {
    /// The snake_case text of this value.
    pub open spec fn text(&self) -> Seq<char> {
        match self {
            PromoType::Percentage => "percentage"@,
            PromoType::FixedAmount => "fixed_amount"@,
            PromoType::FreeDelivery => "free_delivery"@,
            PromoType::FreePickup => "free_pickup"@,
            PromoType::BuyXGetY => "buy_x_get_y"@,
            PromoType::Cashback => "cashback"@,
        }
    }

    /// The value whose text is exactly `s`, if any.
    pub open spec fn from_text(s: Seq<char>) -> Option<PromoType> {
        if s == "percentage"@ {
            Some(PromoType::Percentage)
        } else if s == "fixed_amount"@ {
            Some(PromoType::FixedAmount)
        } else if s == "free_delivery"@ {
            Some(PromoType::FreeDelivery)
        } else if s == "free_pickup"@ {
            Some(PromoType::FreePickup)
        } else if s == "buy_x_get_y"@ {
            Some(PromoType::BuyXGetY)
        } else if s == "cashback"@ {
            Some(PromoType::Cashback)
        } else {
            None
        }
    }

    /// The snake_case text of this value.
    pub fn as_str(&self) -> (r: &'static str)
        ensures
            r@ == self.text(),
    {
        match self {
            PromoType::Percentage => "percentage",
            PromoType::FixedAmount => "fixed_amount",
            PromoType::FreeDelivery => "free_delivery",
            PromoType::FreePickup => "free_pickup",
            PromoType::BuyXGetY => "buy_x_get_y",
            PromoType::Cashback => "cashback",
        }
    }

    /// The snake_case text of this value, owned.
    pub fn to_string(&self) -> (r: String)
        ensures
            r@ == self.text(),
    {
        String::from_str(self.as_str())
    }

    /// The value whose text is exactly `s`, if any.
    pub fn from_lowercase(s: &str) -> (r: Option<PromoType>)
        ensures
            r == PromoType::from_text(s@),
    {
        if str_eq(s, "percentage") {
            Some(PromoType::Percentage)
        } else if str_eq(s, "fixed_amount") {
            Some(PromoType::FixedAmount)
        } else if str_eq(s, "free_delivery") {
            Some(PromoType::FreeDelivery)
        } else if str_eq(s, "free_pickup") {
            Some(PromoType::FreePickup)
        } else if str_eq(s, "buy_x_get_y") {
            Some(PromoType::BuyXGetY)
        } else if str_eq(s, "cashback") {
            Some(PromoType::Cashback)
        } else {
            None
        }
    }

    /// Parse `s` case-insensitively.
    pub fn from_str(s: &str) -> (r: Result<PromoType, String>)
        ensures
            match PromoType::from_text(spec_to_lowercase(s@)) {
                Some(v) => r == Ok::<PromoType, String>(v),
                None => r is Err && r->Err_0@ == "Unknown PromoType variant: "@ + s@,
            },
    {
        let lower = str_to_lowercase(s);
        match PromoType::from_lowercase(lower.as_str()) {
            Some(v) => Ok(v),
            None => Err(String::from_str("Unknown PromoType variant: ").concat(s)),
        }
    }
}

impl Default for PromoType {
    fn default() -> (r: PromoType)
        ensures
            r == PromoType::Percentage,
    {
        PromoType::Percentage
    }
}

/// Reading back the text of a value gives that value.
pub proof fn lemma_promo_type_text_roundtrip(v: PromoType)
    ensures
        PromoType::from_text(v.text()) == Some(v),
{
    reveal_strlit("percentage"); reveal_strlit("fixed_amount"); reveal_strlit("free_delivery"); reveal_strlit("free_pickup"); reveal_strlit("buy_x_get_y"); reveal_strlit("cashback");
    assert("percentage"@.len() != "fixed_amount"@.len());
    assert("percentage"@.len() != "free_delivery"@.len());
    assert("percentage"@.len() != "free_pickup"@.len());
    assert("percentage"@.len() != "buy_x_get_y"@.len());
    assert("percentage"@.len() != "cashback"@.len());
    assert("fixed_amount"@.len() != "free_delivery"@.len());
    assert("fixed_amount"@.len() != "free_pickup"@.len());
    assert("fixed_amount"@.len() != "buy_x_get_y"@.len());
    assert("fixed_amount"@.len() != "cashback"@.len());
    assert("free_delivery"@.len() != "free_pickup"@.len());
    assert("free_delivery"@.len() != "buy_x_get_y"@.len());
    assert("free_delivery"@.len() != "cashback"@.len());
    assert("free_pickup"@[0] != "buy_x_get_y"@[0]);
    assert("free_pickup"@.len() != "cashback"@.len());
    assert("buy_x_get_y"@.len() != "cashback"@.len());
}

/// The price effect of a pricing rule.
#[derive(Debug, Clone, Copy, PartialEq, Eq, Hash, Structural)]
pub enum RateOrDiscount {
    Rate,
    DiscountPercentage,
    DiscountAmount,
}

impl RateOrDiscount {
    /// The snake_case text of this value.
    pub open spec fn text(&self) -> Seq<char> {
        match self {
            RateOrDiscount::Rate => "rate"@,
            RateOrDiscount::DiscountPercentage => "discount_percentage"@,
            RateOrDiscount::DiscountAmount => "discount_amount"@,
        }
    }

    /// The value whose text is exactly `s`, if any.
    pub open spec fn from_text(s: Seq<char>) -> Option<RateOrDiscount> {
        if s == "rate"@ {
            Some(RateOrDiscount::Rate)
        } else if s == "discount_percentage"@ {
            Some(RateOrDiscount::DiscountPercentage)
        } else if s == "discount_amount"@ {
            Some(RateOrDiscount::DiscountAmount)
        } else {
            None
        }
    }

    /// The snake_case text of this value.
    pub fn as_str(&self) -> (r: &'static str)
        ensures
            r@ == self.text(),
    {
        match self {
            RateOrDiscount::Rate => "rate",
            RateOrDiscount::DiscountPercentage => "discount_percentage",
            RateOrDiscount::DiscountAmount => "discount_amount",
        }
    }

    /// The snake_case text of this value, owned.
    pub fn to_string(&self) -> (r: String)
        ensures
            r@ == self.text(),
    {
        String::from_str(self.as_str())
    }

    /// The value whose text is exactly `s`, if any.
    pub fn from_lowercase(s: &str) -> (r: Option<RateOrDiscount>)
        ensures
            r == RateOrDiscount::from_text(s@),
    {
        if str_eq(s, "rate") {
            Some(RateOrDiscount::Rate)
        } else if str_eq(s, "discount_percentage") {
            Some(RateOrDiscount::DiscountPercentage)
        } else if str_eq(s, "discount_amount") {
            Some(RateOrDiscount::DiscountAmount)
        } else {
            None
        }
    }

    /// Parse `s` case-insensitively.
    pub fn from_str(s: &str) -> (r: Result<RateOrDiscount, String>)
        ensures
            match RateOrDiscount::from_text(spec_to_lowercase(s@)) {
                Some(v) => r == Ok::<RateOrDiscount, String>(v),
                None => r is Err && r->Err_0@ == "Unknown RateOrDiscount variant: "@ + s@,
            },
    {
        let lower = str_to_lowercase(s);
        match RateOrDiscount::from_lowercase(lower.as_str()) {
            Some(v) => Ok(v),
            None => Err(String::from_str("Unknown RateOrDiscount variant: ").concat(s)),
        }
    }
}

impl Default for RateOrDiscount {
    fn default() -> (r: RateOrDiscount)
        ensures
            r == RateOrDiscount::DiscountPercentage,
    {
        RateOrDiscount::DiscountPercentage
    }
}

/// Reading back the text of a value gives that value.
pub proof fn lemma_rate_or_discount_text_roundtrip(v: RateOrDiscount)
    ensures
        RateOrDiscount::from_text(v.text()) == Some(v),
{
    reveal_strlit("rate"); reveal_strlit("discount_percentage"); reveal_strlit("discount_amount");
    assert("rate"@.len() != "discount_percentage"@.len());
    assert("rate"@.len() != "discount_amount"@.len());
    assert("discount_percentage"@.len() != "discount_amount"@.len());
}

/// Whether a pricing rule prices a line or a whole order.
#[derive(Debug, Clone, Copy, PartialEq, Eq, Hash, Structural)]
pub enum RuleScope {
    Line,
    Order,
}

impl RuleScope {
    /// The snake_case text of this value.
    pub open spec fn text(&self) -> Seq<char> {
        match self {
            RuleScope::Line => "line"@,
            RuleScope::Order => "order"@,
        }
    }

    /// The value whose text is exactly `s`, if any.
    pub open spec fn from_text(s: Seq<char>) -> Option<RuleScope> {
        if s == "line"@ {
            Some(RuleScope::Line)
        } else if s == "order"@ {
            Some(RuleScope::Order)
        } else {
            None
        }
    }

    /// The snake_case text of this value.
    pub fn as_str(&self) -> (r: &'static str)
        ensures
            r@ == self.text(),
    {
        match self {
            RuleScope::Line => "line",
            RuleScope::Order => "order",
        }
    }

    /// The snake_case text of this value, owned.
    pub fn to_string(&self) -> (r: String)
        ensures
            r@ == self.text(),
    {
        String::from_str(self.as_str())
    }

    /// The value whose text is exactly `s`, if any.
    pub fn from_lowercase(s: &str) -> (r: Option<RuleScope>)
        ensures
            r == RuleScope::from_text(s@),
    {
        if str_eq(s, "line") {
            Some(RuleScope::Line)
        } else if str_eq(s, "order") {
            Some(RuleScope::Order)
        } else {
            None
        }
    }

    /// Parse `s` case-insensitively.
    pub fn from_str(s: &str) -> (r: Result<RuleScope, String>)
        ensures
            match RuleScope::from_text(spec_to_lowercase(s@)) {
                Some(v) => r == Ok::<RuleScope, String>(v),
                None => r is Err && r->Err_0@ == "Unknown RuleScope variant: "@ + s@,
            },
    {
        let lower = str_to_lowercase(s);
        match RuleScope::from_lowercase(lower.as_str()) {
            Some(v) => Ok(v),
            None => Err(String::from_str("Unknown RuleScope variant: ").concat(s)),
        }
    }
}

impl Default for RuleScope {
    fn default() -> (r: RuleScope)
        ensures
            r == RuleScope::Line,
    {
        RuleScope::Line
    }
}

/// Reading back the text of a value gives that value.
pub proof fn lemma_rule_scope_text_roundtrip(v: RuleScope)
    ensures
        RuleScope::from_text(v.text()) == Some(v),
{
    reveal_strlit("line"); reveal_strlit("order");
    assert("line"@.len() != "order"@.len());
}

} // verus!
