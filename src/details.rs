//! The per-category detail blocks of a quote record.
use vstd::prelude::*;
use crate::json::{
    JsonModel, json_model, member, member_of, is_object, text_at, number_at, integer_at,
    flag_at, text_field, number_field, integer_field, flag_field,
};

verus! {

/// The full detail block: pricing, volume, and option attributes.
#[derive(Debug, Clone)]
pub struct AllQuoteDetails {
    pub ask: Option<serde_json::Number>,
    pub bid: Option<serde_json::Number>,
    pub last_trade: Option<serde_json::Number>,
    pub company_name: Option<String>,
    pub high: Option<serde_json::Number>,
    pub low: Option<serde_json::Number>,
    pub open: Option<serde_json::Number>,
    pub previous_close: Option<serde_json::Number>,
    pub total_volume: Option<i64>,
    pub change_close: Option<serde_json::Number>,
    pub change_close_percentage: Option<serde_json::Number>,
    pub days_to_expiration: Option<i64>,
    pub open_interest: Option<i64>,
    pub option_style: Option<String>,
    pub option_underlier: Option<String>,
    pub intrinsic_value: Option<serde_json::Number>,
    pub time_premium: Option<serde_json::Number>,
    pub option_multiplier: Option<serde_json::Number>,
    pub contract_size: Option<serde_json::Number>,
    pub expiration_date: Option<i64>,
    pub delta: Option<serde_json::Number>,
    pub gamma: Option<serde_json::Number>,
    pub theta: Option<serde_json::Number>,
    pub vega: Option<serde_json::Number>,
    pub implied_volatility: Option<serde_json::Number>,
}

impl AllQuoteDetails {
    /// Each field holds what its own member of the object `j` gives it.
    pub open spec fn read_from(self, j: JsonModel) -> bool {
        &&& self.ask == number_at(j, "ask"@)
        &&& self.bid == number_at(j, "bid"@)
        &&& self.last_trade == number_at(j, "lastTrade"@)
        &&& text_at(j, "companyName"@, self.company_name)
        &&& self.high == number_at(j, "high"@)
        &&& self.low == number_at(j, "low"@)
        &&& self.open == number_at(j, "open"@)
        &&& self.previous_close == number_at(j, "previousClose"@)
        &&& self.total_volume == integer_at(j, "totalVolume"@)
        &&& self.change_close == number_at(j, "changeClose"@)
        &&& self.change_close_percentage == number_at(j, "changeClosePercentage"@)
        &&& self.days_to_expiration == integer_at(j, "daysToExpiration"@)
        &&& self.open_interest == integer_at(j, "openInterest"@)
        &&& text_at(j, "optionStyle"@, self.option_style)
        &&& text_at(j, "optionUnderlier"@, self.option_underlier)
        &&& self.intrinsic_value == number_at(j, "intrinsicValue"@)
        &&& self.time_premium == number_at(j, "timePremium"@)
        &&& self.option_multiplier == number_at(j, "optionMultiplier"@)
        &&& self.contract_size == number_at(j, "contractSize"@)
        &&& self.expiration_date == integer_at(j, "expirationDate"@)
        &&& self.delta == number_at(j, "delta"@)
        &&& self.gamma == number_at(j, "gamma"@)
        &&& self.theta == number_at(j, "theta"@)
        &&& self.vega == number_at(j, "vega"@)
        &&& self.implied_volatility == number_at(j, "impliedVolatility"@)
    }

    /// Decodes every field from its member of `v`; absent and mistyped
    /// members leave the field empty.
    pub fn from_json(v: &serde_json::Value) -> (r: Self)
        ensures
            r.read_from(json_model(*v)),
    {
        AllQuoteDetails {
            ask: number_field(v, "ask"),
            bid: number_field(v, "bid"),
            last_trade: number_field(v, "lastTrade"),
            company_name: text_field(v, "companyName"),
            high: number_field(v, "high"),
            low: number_field(v, "low"),
            open: number_field(v, "open"),
            previous_close: number_field(v, "previousClose"),
            total_volume: integer_field(v, "totalVolume"),
            change_close: number_field(v, "changeClose"),
            change_close_percentage: number_field(v, "changeClosePercentage"),
            days_to_expiration: integer_field(v, "daysToExpiration"),
            open_interest: integer_field(v, "openInterest"),
            option_style: text_field(v, "optionStyle"),
            option_underlier: text_field(v, "optionUnderlier"),
            intrinsic_value: number_field(v, "intrinsicValue"),
            time_premium: number_field(v, "timePremium"),
            option_multiplier: number_field(v, "optionMultiplier"),
            contract_size: number_field(v, "contractSize"),
            expiration_date: integer_field(v, "expirationDate"),
            delta: number_field(v, "delta"),
            gamma: number_field(v, "gamma"),
            theta: number_field(v, "theta"),
            vega: number_field(v, "vega"),
            implied_volatility: number_field(v, "impliedVolatility"),
        }
    }

    /// `r` is the record decoded from member `key` of `j` when that member is
    /// an object, and absent otherwise.
    pub open spec fn member_read(j: JsonModel, key: Seq<char>, r: Option<Self>) -> bool {
        match member_of(j, key) {
            Some(m) => if m is Object {
                r is Some && r->0.read_from(m)
            } else {
                r is None
            },
            None => r is None,
        }
    }

    /// Decodes member `key` of `v` as a record, when it is an object.
    pub fn from_member(v: &serde_json::Value, key: &str) -> (r: Option<Self>)
        ensures
            Self::member_read(json_model(*v), key@, r),
    {
        match member(v, key) {
            Some(m) => if is_object(m) {
                Some(Self::from_json(m))
            } else {
                None
            },
            None => None,
        }
    }
}

/// Fundamental data: earnings and the 52-week range.
#[derive(Debug, Clone)]
pub struct FundamentalQuoteDetails {
    pub company_name: Option<String>,
    pub eps: Option<serde_json::Number>,
    pub est_earnings: Option<serde_json::Number>,
    pub high52: Option<serde_json::Number>,
    pub last_trade: Option<serde_json::Number>,
    pub low52: Option<serde_json::Number>,
    pub symbol_description: Option<String>,
    pub volume_10_day: Option<i64>,
}

impl FundamentalQuoteDetails {
    /// Each field holds what its own member of the object `j` gives it.
    pub open spec fn read_from(self, j: JsonModel) -> bool {
        &&& text_at(j, "companyName"@, self.company_name)
        &&& self.eps == number_at(j, "eps"@)
        &&& self.est_earnings == number_at(j, "estEarnings"@)
        &&& self.high52 == number_at(j, "high52"@)
        &&& self.last_trade == number_at(j, "lastTrade"@)
        &&& self.low52 == number_at(j, "low52"@)
        &&& text_at(j, "symbolDescription"@, self.symbol_description)
        &&& self.volume_10_day == integer_at(j, "volume10Day"@)
    }

    /// Decodes every field from its member of `v`; absent and mistyped
    /// members leave the field empty.
    pub fn from_json(v: &serde_json::Value) -> (r: Self)
        ensures
            r.read_from(json_model(*v)),
    {
        FundamentalQuoteDetails {
            company_name: text_field(v, "companyName"),
            eps: number_field(v, "eps"),
            est_earnings: number_field(v, "estEarnings"),
            high52: number_field(v, "high52"),
            last_trade: number_field(v, "lastTrade"),
            low52: number_field(v, "low52"),
            symbol_description: text_field(v, "symbolDescription"),
            volume_10_day: integer_field(v, "volume10Day"),
        }
    }

    /// `r` is the record decoded from member `key` of `j` when that member is
    /// an object, and absent otherwise.
    pub open spec fn member_read(j: JsonModel, key: Seq<char>, r: Option<Self>) -> bool {
        match member_of(j, key) {
            Some(m) => if m is Object {
                r is Some && r->0.read_from(m)
            } else {
                r is None
            },
            None => r is None,
        }
    }

    /// Decodes member `key` of `v` as a record, when it is an object.
    pub fn from_member(v: &serde_json::Value, key: &str) -> (r: Option<Self>)
        ensures
            Self::member_read(json_model(*v), key@, r),
    {
        match member(v, key) {
            Some(m) => if is_object(m) {
                Some(Self::from_json(m))
            } else {
                None
            },
            None => None,
        }
    }
}

/// Intraday pricing.
#[derive(Debug, Clone)]
pub struct IntraQuoteDetails {
    pub ask: Option<serde_json::Number>,
    pub bid: Option<serde_json::Number>,
    pub change_close: Option<serde_json::Number>,
    pub change_close_percentage: Option<serde_json::Number>,
    pub company_name: Option<String>,
    pub high: Option<serde_json::Number>,
    pub last_trade: Option<serde_json::Number>,
    pub low: Option<serde_json::Number>,
    pub total_volume: Option<i64>,
}

impl IntraQuoteDetails {
    /// Each field holds what its own member of the object `j` gives it.
    pub open spec fn read_from(self, j: JsonModel) -> bool {
        &&& self.ask == number_at(j, "ask"@)
        &&& self.bid == number_at(j, "bid"@)
        &&& self.change_close == number_at(j, "changeClose"@)
        &&& self.change_close_percentage == number_at(j, "changeClosePercentage"@)
        &&& text_at(j, "companyName"@, self.company_name)
        &&& self.high == number_at(j, "high"@)
        &&& self.last_trade == number_at(j, "lastTrade"@)
        &&& self.low == number_at(j, "low"@)
        &&& self.total_volume == integer_at(j, "totalVolume"@)
    }

    /// Decodes every field from its member of `v`; absent and mistyped
    /// members leave the field empty.
    pub fn from_json(v: &serde_json::Value) -> (r: Self)
        ensures
            r.read_from(json_model(*v)),
    {
        IntraQuoteDetails {
            ask: number_field(v, "ask"),
            bid: number_field(v, "bid"),
            change_close: number_field(v, "changeClose"),
            change_close_percentage: number_field(v, "changeClosePercentage"),
            company_name: text_field(v, "companyName"),
            high: number_field(v, "high"),
            last_trade: number_field(v, "lastTrade"),
            low: number_field(v, "low"),
            total_volume: integer_field(v, "totalVolume"),
        }
    }

    /// `r` is the record decoded from member `key` of `j` when that member is
    /// an object, and absent otherwise.
    pub open spec fn member_read(j: JsonModel, key: Seq<char>, r: Option<Self>) -> bool {
        match member_of(j, key) {
            Some(m) => if m is Object {
                r is Some && r->0.read_from(m)
            } else {
                r is None
            },
            None => r is None,
        }
    }

    /// Decodes member `key` of `v` as a record, when it is an object.
    pub fn from_member(v: &serde_json::Value, key: &str) -> (r: Option<Self>)
        ensures
            Self::member_read(json_model(*v), key@, r),
    {
        match member(v, key) {
            Some(m) => if is_object(m) {
                Some(Self::from_json(m))
            } else {
                None
            },
            None => None,
        }
    }
}

/// Pricing and terms of an option contract.
#[derive(Debug, Clone)]
pub struct OptionQuoteDetails {
    pub ask: Option<serde_json::Number>,
    pub ask_size: Option<i64>,
    pub bid: Option<serde_json::Number>,
    pub bid_size: Option<i64>,
    pub company_name: Option<String>,
    pub days_to_expiration: Option<i64>,
    pub last_trade: Option<serde_json::Number>,
    pub open_interest: Option<i64>,
    pub option_previous_bid_price: Option<serde_json::Number>,
    pub option_previous_ask_price: Option<serde_json::Number>,
    pub osi_key: Option<String>,
    pub intrinsic_value: Option<serde_json::Number>,
    pub time_premium: Option<serde_json::Number>,
    pub option_multiplier: Option<serde_json::Number>,
    pub contract_size: Option<serde_json::Number>,
    pub symbol_description: Option<String>,
    pub option_greeks: Option<OptionGreeks>,
}

impl OptionQuoteDetails {
    /// Each field holds what its own member of the object `j` gives it.
    pub open spec fn read_from(self, j: JsonModel) -> bool {
        &&& self.ask == number_at(j, "ask"@)
        &&& self.ask_size == integer_at(j, "askSize"@)
        &&& self.bid == number_at(j, "bid"@)
        &&& self.bid_size == integer_at(j, "bidSize"@)
        &&& text_at(j, "companyName"@, self.company_name)
        &&& self.days_to_expiration == integer_at(j, "daysToExpiration"@)
        &&& self.last_trade == number_at(j, "lastTrade"@)
        &&& self.open_interest == integer_at(j, "openInterest"@)
        &&& self.option_previous_bid_price == number_at(j, "optionPreviousBidPrice"@)
        &&& self.option_previous_ask_price == number_at(j, "optionPreviousAskPrice"@)
        &&& text_at(j, "osiKey"@, self.osi_key)
        &&& self.intrinsic_value == number_at(j, "intrinsicValue"@)
        &&& self.time_premium == number_at(j, "timePremium"@)
        &&& self.option_multiplier == number_at(j, "optionMultiplier"@)
        &&& self.contract_size == number_at(j, "contractSize"@)
        &&& text_at(j, "symbolDescription"@, self.symbol_description)
        &&& OptionGreeks::member_read(j, "OptionGreeks"@, self.option_greeks)
    }

    /// Decodes every field from its member of `v`; absent and mistyped
    /// members leave the field empty.
    pub fn from_json(v: &serde_json::Value) -> (r: Self)
        ensures
            r.read_from(json_model(*v)),
    {
        OptionQuoteDetails {
            ask: number_field(v, "ask"),
            ask_size: integer_field(v, "askSize"),
            bid: number_field(v, "bid"),
            bid_size: integer_field(v, "bidSize"),
            company_name: text_field(v, "companyName"),
            days_to_expiration: integer_field(v, "daysToExpiration"),
            last_trade: number_field(v, "lastTrade"),
            open_interest: integer_field(v, "openInterest"),
            option_previous_bid_price: number_field(v, "optionPreviousBidPrice"),
            option_previous_ask_price: number_field(v, "optionPreviousAskPrice"),
            osi_key: text_field(v, "osiKey"),
            intrinsic_value: number_field(v, "intrinsicValue"),
            time_premium: number_field(v, "timePremium"),
            option_multiplier: number_field(v, "optionMultiplier"),
            contract_size: number_field(v, "contractSize"),
            symbol_description: text_field(v, "symbolDescription"),
            option_greeks: OptionGreeks::from_member(v, "OptionGreeks"),
        }
    }

    /// `r` is the record decoded from member `key` of `j` when that member is
    /// an object, and absent otherwise.
    pub open spec fn member_read(j: JsonModel, key: Seq<char>, r: Option<Self>) -> bool {
        match member_of(j, key) {
            Some(m) => if m is Object {
                r is Some && r->0.read_from(m)
            } else {
                r is None
            },
            None => r is None,
        }
    }

    /// Decodes member `key` of `v` as a record, when it is an object.
    pub fn from_member(v: &serde_json::Value, key: &str) -> (r: Option<Self>)
        ensures
            Self::member_read(json_model(*v), key@, r),
    {
        match member(v, key) {
            Some(m) => if is_object(m) {
                Some(Self::from_json(m))
            } else {
                None
            },
            None => None,
        }
    }
}

/// Sensitivities of an option, with a flag telling whether they are current.
#[derive(Debug, Clone)]
pub struct OptionGreeks {
    pub rho: Option<serde_json::Number>,
    pub vega: Option<serde_json::Number>,
    pub theta: Option<serde_json::Number>,
    pub delta: Option<serde_json::Number>,
    pub gamma: Option<serde_json::Number>,
    pub iv: Option<serde_json::Number>,
    pub current_value: Option<bool>,
}

impl OptionGreeks {
    /// Each field holds what its own member of the object `j` gives it.
    pub open spec fn read_from(self, j: JsonModel) -> bool {
        &&& self.rho == number_at(j, "rho"@)
        &&& self.vega == number_at(j, "vega"@)
        &&& self.theta == number_at(j, "theta"@)
        &&& self.delta == number_at(j, "delta"@)
        &&& self.gamma == number_at(j, "gamma"@)
        &&& self.iv == number_at(j, "iv"@)
        &&& self.current_value == flag_at(j, "currentValue"@)
    }

    /// Decodes every field from its member of `v`; absent and mistyped
    /// members leave the field empty.
    pub fn from_json(v: &serde_json::Value) -> (r: Self)
        ensures
            r.read_from(json_model(*v)),
    {
        OptionGreeks {
            rho: number_field(v, "rho"),
            vega: number_field(v, "vega"),
            theta: number_field(v, "theta"),
            delta: number_field(v, "delta"),
            gamma: number_field(v, "gamma"),
            iv: number_field(v, "iv"),
            current_value: flag_field(v, "currentValue"),
        }
    }

    /// `r` is the record decoded from member `key` of `j` when that member is
    /// an object, and absent otherwise.
    pub open spec fn member_read(j: JsonModel, key: Seq<char>, r: Option<Self>) -> bool {
        match member_of(j, key) {
            Some(m) => if m is Object {
                r is Some && r->0.read_from(m)
            } else {
                r is None
            },
            None => r is None,
        }
    }

    /// Decodes member `key` of `v` as a record, when it is an object.
    pub fn from_member(v: &serde_json::Value, key: &str) -> (r: Option<Self>)
        ensures
            Self::member_read(json_model(*v), key@, r),
    {
        match member(v, key) {
            Some(m) => if is_object(m) {
                Some(Self::from_json(m))
            } else {
                None
            },
            None => None,
        }
    }
}

/// The 52-week view of a security.
#[derive(Debug, Clone)]
pub struct Week52QuoteDetails {
    pub annual_dividend: Option<serde_json::Number>,
    pub company_name: Option<String>,
    pub high52: Option<serde_json::Number>,
    pub last_trade: Option<serde_json::Number>,
    pub low52: Option<serde_json::Number>,
    pub perf_12_months: Option<serde_json::Number>,
    pub previous_close: Option<serde_json::Number>,
    pub symbol_description: Option<String>,
    pub total_volume: Option<i64>,
}

impl Week52QuoteDetails {
    /// Each field holds what its own member of the object `j` gives it.
    pub open spec fn read_from(self, j: JsonModel) -> bool {
        &&& self.annual_dividend == number_at(j, "annualDividend"@)
        &&& text_at(j, "companyName"@, self.company_name)
        &&& self.high52 == number_at(j, "high52"@)
        &&& self.last_trade == number_at(j, "lastTrade"@)
        &&& self.low52 == number_at(j, "low52"@)
        &&& self.perf_12_months == number_at(j, "perf12Months"@)
        &&& self.previous_close == number_at(j, "previousClose"@)
        &&& text_at(j, "symbolDescription"@, self.symbol_description)
        &&& self.total_volume == integer_at(j, "totalVolume"@)
    }

    /// Decodes every field from its member of `v`; absent and mistyped
    /// members leave the field empty.
    pub fn from_json(v: &serde_json::Value) -> (r: Self)
        ensures
            r.read_from(json_model(*v)),
    {
        Week52QuoteDetails {
            annual_dividend: number_field(v, "annualDividend"),
            company_name: text_field(v, "companyName"),
            high52: number_field(v, "high52"),
            last_trade: number_field(v, "lastTrade"),
            low52: number_field(v, "low52"),
            perf_12_months: number_field(v, "perf12Months"),
            previous_close: number_field(v, "previousClose"),
            symbol_description: text_field(v, "symbolDescription"),
            total_volume: integer_field(v, "totalVolume"),
        }
    }

    /// `r` is the record decoded from member `key` of `j` when that member is
    /// an object, and absent otherwise.
    pub open spec fn member_read(j: JsonModel, key: Seq<char>, r: Option<Self>) -> bool {
        match member_of(j, key) {
            Some(m) => if m is Object {
                r is Some && r->0.read_from(m)
            } else {
                r is None
            },
            None => r is None,
        }
    }

    /// Decodes member `key` of `v` as a record, when it is an object.
    pub fn from_member(v: &serde_json::Value, key: &str) -> (r: Option<Self>)
        ensures
            Self::member_read(json_model(*v), key@, r),
    {
        match member(v, key) {
            Some(m) => if is_object(m) {
                Some(Self::from_json(m))
            } else {
                None
            },
            None => None,
        }
    }
}

} // verus!

