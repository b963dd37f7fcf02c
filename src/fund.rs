//! The mutual-fund detail block and its nested schedules.
use vstd::prelude::*;
use crate::json::{
    JsonModel, json_model, member, member_of, is_object, as_array, text_at, number_at, integer_at,
    text_field, number_field, integer_field,
};

verus! {

/// Mutual-fund data: pricing, fees, returns over several windows, and redemption terms.
#[derive(Debug, Clone)]
pub struct MutualFund {
    pub symbol_description: Option<String>,
    pub cusip: Option<String>,
    pub change_close: Option<serde_json::Number>,
    pub previous_close: Option<serde_json::Number>,
    pub transaction_fee: Option<serde_json::Number>,
    pub early_redemption_fee: Option<String>,
    pub availability: Option<String>,
    pub initial_investment: Option<serde_json::Number>,
    pub subsequent_investment: Option<serde_json::Number>,
    pub fund_family: Option<String>,
    pub fund_name: Option<String>,
    pub change_close_percentage: Option<serde_json::Number>,
    pub time_of_last_trade: Option<i64>,
    pub net_asset_value: Option<serde_json::Number>,
    pub public_offer_price: Option<serde_json::Number>,
    pub net_expense_ratio: Option<serde_json::Number>,
    pub gross_expense_ratio: Option<serde_json::Number>,
    pub order_cutoff_time: Option<i64>,
    pub sales_charge: Option<String>,
    pub initial_ira_investment: Option<serde_json::Number>,
    pub subsequent_ira_investment: Option<serde_json::Number>,
    pub net_assets: Option<NetAsset>,
    pub fund_inception_date: Option<i64>,
    pub average_annual_returns: Option<serde_json::Number>,
    pub seven_day_current_yield: Option<serde_json::Number>,
    pub annual_total_return: Option<serde_json::Number>,
    pub weighted_average_maturity: Option<serde_json::Number>,
    pub average_annual_returns_1_yr: Option<serde_json::Number>,
    pub average_annual_returns_3_yr: Option<serde_json::Number>,
    pub average_annual_returns_5_yr: Option<serde_json::Number>,
    pub average_annual_returns_10_yr: Option<serde_json::Number>,
    pub high52: Option<serde_json::Number>,
    pub low52: Option<serde_json::Number>,
    pub week_52_low_date: Option<i64>,
    pub week_52_hi_date: Option<i64>,
    pub exchange_name: Option<String>,
    pub since_inception: Option<serde_json::Number>,
    pub quarterly_since_inception: Option<serde_json::Number>,
    pub last_trade: Option<serde_json::Number>,
    pub actual_12b1_fee: Option<serde_json::Number>,
    pub performance_as_of_date: Option<String>,
    pub qtrly_performance_as_of_date: Option<String>,
    pub redemption: Option<Redemption>,
    pub morning_star_category: Option<String>,
    pub monthly_trailing_return_1y: Option<serde_json::Number>,
    pub monthly_trailing_return_3y: Option<serde_json::Number>,
    pub monthly_trailing_return_5y: Option<serde_json::Number>,
    pub monthly_trailing_return_10y: Option<serde_json::Number>,
    pub etrade_early_redemption_fee: Option<String>,
    pub max_sales_load: Option<serde_json::Number>,
    pub monthly_trailing_return_ytd: Option<serde_json::Number>,
    pub monthly_trailing_return_1m: Option<serde_json::Number>,
    pub monthly_trailing_return_3m: Option<serde_json::Number>,
    pub monthly_trailing_return_6m: Option<serde_json::Number>,
    pub qtrly_trailing_return_ytd: Option<serde_json::Number>,
    pub qtrly_trailing_return_1m: Option<serde_json::Number>,
    pub qtrly_trailing_return_3m: Option<serde_json::Number>,
    pub qtrly_trailing_return_6m: Option<serde_json::Number>,
    pub deferred_sales_changes: Vec<SaleChargeValues>,
    pub frontend_sales_changes: Vec<SaleChargeValues>,
    pub exchange_code: Option<String>,
}

impl MutualFund {
    /// Each field holds what its own member of the object `j` gives it.
    pub open spec fn read_from(self, j: JsonModel) -> bool {
        &&& text_at(j, "symbolDescription"@, self.symbol_description)
        &&& text_at(j, "cusip"@, self.cusip)
        &&& self.change_close == number_at(j, "changeClose"@)
        &&& self.previous_close == number_at(j, "previousClose"@)
        &&& self.transaction_fee == number_at(j, "transactionFee"@)
        &&& text_at(j, "earlyRedemptionFee"@, self.early_redemption_fee)
        &&& text_at(j, "availability"@, self.availability)
        &&& self.initial_investment == number_at(j, "initialInvestment"@)
        &&& self.subsequent_investment == number_at(j, "subsequentInvestment"@)
        &&& text_at(j, "fundFamily"@, self.fund_family)
        &&& text_at(j, "fundName"@, self.fund_name)
        &&& self.change_close_percentage == number_at(j, "changeClosePercentage"@)
        &&& self.time_of_last_trade == integer_at(j, "timeOfLastTrade"@)
        &&& self.net_asset_value == number_at(j, "netAssetValue"@)
        &&& self.public_offer_price == number_at(j, "publicOfferPrice"@)
        &&& self.net_expense_ratio == number_at(j, "netExpenseRatio"@)
        &&& self.gross_expense_ratio == number_at(j, "grossExpenseRatio"@)
        &&& self.order_cutoff_time == integer_at(j, "orderCutoffTime"@)
        &&& text_at(j, "salesCharge"@, self.sales_charge)
        &&& self.initial_ira_investment == number_at(j, "initialIraInvestment"@)
        &&& self.subsequent_ira_investment == number_at(j, "subsequentIraInvestment"@)
        &&& NetAsset::member_read(j, "netAssets"@, self.net_assets)
        &&& self.fund_inception_date == integer_at(j, "fundInceptionDate"@)
        &&& self.average_annual_returns == number_at(j, "averageAnnualReturns"@)
        &&& self.seven_day_current_yield == number_at(j, "sevenDayCurrentYield"@)
        &&& self.annual_total_return == number_at(j, "annualTotalReturn"@)
        &&& self.weighted_average_maturity == number_at(j, "weightedAverageMaturity"@)
        &&& self.average_annual_returns_1_yr == number_at(j, "averageAnnualReturns1Yr"@)
        &&& self.average_annual_returns_3_yr == number_at(j, "averageAnnualReturns3Yr"@)
        &&& self.average_annual_returns_5_yr == number_at(j, "averageAnnualReturns5Yr"@)
        &&& self.average_annual_returns_10_yr == number_at(j, "averageAnnualReturns10Yr"@)
        &&& self.high52 == number_at(j, "high52"@)
        &&& self.low52 == number_at(j, "low52"@)
        &&& self.week_52_low_date == integer_at(j, "week52LowDate"@)
        &&& self.week_52_hi_date == integer_at(j, "week52HiDate"@)
        &&& text_at(j, "exchangeName"@, self.exchange_name)
        &&& self.since_inception == number_at(j, "sinceInception"@)
        &&& self.quarterly_since_inception == number_at(j, "quarterlySinceInception"@)
        &&& self.last_trade == number_at(j, "lastTrade"@)
        &&& self.actual_12b1_fee == number_at(j, "actual12B1Fee"@)
        &&& text_at(j, "performanceAsOfDate"@, self.performance_as_of_date)
        &&& text_at(j, "qtrlyPerformanceAsOfDate"@, self.qtrly_performance_as_of_date)
        &&& Redemption::member_read(j, "redemption"@, self.redemption)
        &&& text_at(j, "morningStarCategory"@, self.morning_star_category)
        &&& self.monthly_trailing_return_1y == number_at(j, "monthlyTrailingReturn1Y"@)
        &&& self.monthly_trailing_return_3y == number_at(j, "monthlyTrailingReturn3Y"@)
        &&& self.monthly_trailing_return_5y == number_at(j, "monthlyTrailingReturn5Y"@)
        &&& self.monthly_trailing_return_10y == number_at(j, "monthlyTrailingReturn10Y"@)
        &&& text_at(j, "etradeEarlyRedemptionFee"@, self.etrade_early_redemption_fee)
        &&& self.max_sales_load == number_at(j, "maxSalesLoad"@)
        &&& self.monthly_trailing_return_ytd == number_at(j, "monthlyTrailingReturnYTD"@)
        &&& self.monthly_trailing_return_1m == number_at(j, "monthlyTrailingReturn1M"@)
        &&& self.monthly_trailing_return_3m == number_at(j, "monthlyTrailingReturn3M"@)
        &&& self.monthly_trailing_return_6m == number_at(j, "monthlyTrailingReturn6M"@)
        &&& self.qtrly_trailing_return_ytd == number_at(j, "qtrlyTrailingReturnYTD"@)
        &&& self.qtrly_trailing_return_1m == number_at(j, "qtrlyTrailingReturn1M"@)
        &&& self.qtrly_trailing_return_3m == number_at(j, "qtrlyTrailingReturn3M"@)
        &&& self.qtrly_trailing_return_6m == number_at(j, "qtrlyTrailingReturn6M"@)
        &&& SaleChargeValues::list_read(j, "deferredSalesChanges"@, self.deferred_sales_changes@)
        &&& SaleChargeValues::list_read(j, "frontendSalesChanges"@, self.frontend_sales_changes@)
        &&& text_at(j, "exchangeCode"@, self.exchange_code)
    }

    /// Decodes every field from its member of `v`; absent and mistyped
    /// members leave the field empty.
    pub fn from_json(v: &serde_json::Value) -> (r: Self)
        ensures
            r.read_from(json_model(*v)),
    {
        MutualFund {
            symbol_description: text_field(v, "symbolDescription"),
            cusip: text_field(v, "cusip"),
            change_close: number_field(v, "changeClose"),
            previous_close: number_field(v, "previousClose"),
            transaction_fee: number_field(v, "transactionFee"),
            early_redemption_fee: text_field(v, "earlyRedemptionFee"),
            availability: text_field(v, "availability"),
            initial_investment: number_field(v, "initialInvestment"),
            subsequent_investment: number_field(v, "subsequentInvestment"),
            fund_family: text_field(v, "fundFamily"),
            fund_name: text_field(v, "fundName"),
            change_close_percentage: number_field(v, "changeClosePercentage"),
            time_of_last_trade: integer_field(v, "timeOfLastTrade"),
            net_asset_value: number_field(v, "netAssetValue"),
            public_offer_price: number_field(v, "publicOfferPrice"),
            net_expense_ratio: number_field(v, "netExpenseRatio"),
            gross_expense_ratio: number_field(v, "grossExpenseRatio"),
            order_cutoff_time: integer_field(v, "orderCutoffTime"),
            sales_charge: text_field(v, "salesCharge"),
            initial_ira_investment: number_field(v, "initialIraInvestment"),
            subsequent_ira_investment: number_field(v, "subsequentIraInvestment"),
            net_assets: NetAsset::from_member(v, "netAssets"),
            fund_inception_date: integer_field(v, "fundInceptionDate"),
            average_annual_returns: number_field(v, "averageAnnualReturns"),
            seven_day_current_yield: number_field(v, "sevenDayCurrentYield"),
            annual_total_return: number_field(v, "annualTotalReturn"),
            weighted_average_maturity: number_field(v, "weightedAverageMaturity"),
            average_annual_returns_1_yr: number_field(v, "averageAnnualReturns1Yr"),
            average_annual_returns_3_yr: number_field(v, "averageAnnualReturns3Yr"),
            average_annual_returns_5_yr: number_field(v, "averageAnnualReturns5Yr"),
            average_annual_returns_10_yr: number_field(v, "averageAnnualReturns10Yr"),
            high52: number_field(v, "high52"),
            low52: number_field(v, "low52"),
            week_52_low_date: integer_field(v, "week52LowDate"),
            week_52_hi_date: integer_field(v, "week52HiDate"),
            exchange_name: text_field(v, "exchangeName"),
            since_inception: number_field(v, "sinceInception"),
            quarterly_since_inception: number_field(v, "quarterlySinceInception"),
            last_trade: number_field(v, "lastTrade"),
            actual_12b1_fee: number_field(v, "actual12B1Fee"),
            performance_as_of_date: text_field(v, "performanceAsOfDate"),
            qtrly_performance_as_of_date: text_field(v, "qtrlyPerformanceAsOfDate"),
            redemption: Redemption::from_member(v, "redemption"),
            morning_star_category: text_field(v, "morningStarCategory"),
            monthly_trailing_return_1y: number_field(v, "monthlyTrailingReturn1Y"),
            monthly_trailing_return_3y: number_field(v, "monthlyTrailingReturn3Y"),
            monthly_trailing_return_5y: number_field(v, "monthlyTrailingReturn5Y"),
            monthly_trailing_return_10y: number_field(v, "monthlyTrailingReturn10Y"),
            etrade_early_redemption_fee: text_field(v, "etradeEarlyRedemptionFee"),
            max_sales_load: number_field(v, "maxSalesLoad"),
            monthly_trailing_return_ytd: number_field(v, "monthlyTrailingReturnYTD"),
            monthly_trailing_return_1m: number_field(v, "monthlyTrailingReturn1M"),
            monthly_trailing_return_3m: number_field(v, "monthlyTrailingReturn3M"),
            monthly_trailing_return_6m: number_field(v, "monthlyTrailingReturn6M"),
            qtrly_trailing_return_ytd: number_field(v, "qtrlyTrailingReturnYTD"),
            qtrly_trailing_return_1m: number_field(v, "qtrlyTrailingReturn1M"),
            qtrly_trailing_return_3m: number_field(v, "qtrlyTrailingReturn3M"),
            qtrly_trailing_return_6m: number_field(v, "qtrlyTrailingReturn6M"),
            deferred_sales_changes: SaleChargeValues::list_from_member(v, "deferredSalesChanges"),
            frontend_sales_changes: SaleChargeValues::list_from_member(v, "frontendSalesChanges"),
            exchange_code: text_field(v, "exchangeCode"),
        }
    }

    /// `r` is the record decoded from member `key` of `j` when that member is
    /// an object, and absent otherwise.
    pub open spec fn member_read(j: JsonModel, key: Seq<char>, r: Option<Self>) -> bool {
        match member_of(j, key) {
            Some(m) => if m is Object {
                r is Some && r->0.read_from(m)
            } else {
                r is None
            },
            None => r is None,
        }
    }

    /// Decodes member `key` of `v` as a record, when it is an object.
    pub fn from_member(v: &serde_json::Value, key: &str) -> (r: Option<Self>)
        ensures
            Self::member_read(json_model(*v), key@, r),
    {
        match member(v, key) {
            Some(m) => if is_object(m) {
                Some(Self::from_json(m))
            } else {
                None
            },
            None => None,
        }
    }
}

/// A fund's net assets and the date they were measured.
#[derive(Debug, Clone)]
pub struct NetAsset {
    pub value: Option<serde_json::Number>,
    pub as_of_date: Option<i64>,
}

impl NetAsset {
    /// Each field holds what its own member of the object `j` gives it.
    pub open spec fn read_from(self, j: JsonModel) -> bool {
        &&& self.value == number_at(j, "value"@)
        &&& self.as_of_date == integer_at(j, "asOfDate"@)
    }

    /// Decodes every field from its member of `v`; absent and mistyped
    /// members leave the field empty.
    pub fn from_json(v: &serde_json::Value) -> (r: Self)
        ensures
            r.read_from(json_model(*v)),
    {
        NetAsset {
            value: number_field(v, "value"),
            as_of_date: integer_field(v, "asOfDate"),
        }
    }

    /// `r` is the record decoded from member `key` of `j` when that member is
    /// an object, and absent otherwise.
    pub open spec fn member_read(j: JsonModel, key: Seq<char>, r: Option<Self>) -> bool {
        match member_of(j, key) {
            Some(m) => if m is Object {
                r is Some && r->0.read_from(m)
            } else {
                r is None
            },
            None => r is None,
        }
    }

    /// Decodes member `key` of `v` as a record, when it is an object.
    pub fn from_member(v: &serde_json::Value, key: &str) -> (r: Option<Self>)
        ensures
            Self::member_read(json_model(*v), key@, r),
    {
        match member(v, key) {
            Some(m) => if is_object(m) {
                Some(Self::from_json(m))
            } else {
                None
            },
            None => None,
        }
    }
}

/// Redemption terms, with their tiered fee schedules.
#[derive(Debug, Clone)]
pub struct Redemption {
    pub min_month: Option<String>,
    pub fee_percent: Option<String>,
    pub is_front_end: Option<String>,
    pub front_end_values: Vec<Values>,
    pub redemption_duration_type: Option<String>,
    pub is_sales: Option<String>,
    pub sales_duration_type: Option<String>,
    pub sales_values: Vec<Values>,
}

impl Redemption {
    /// Each field holds what its own member of the object `j` gives it.
    pub open spec fn read_from(self, j: JsonModel) -> bool {
        &&& text_at(j, "minMonth"@, self.min_month)
        &&& text_at(j, "feePercent"@, self.fee_percent)
        &&& text_at(j, "isFrontEnd"@, self.is_front_end)
        &&& Values::list_read(j, "frontEndValues"@, self.front_end_values@)
        &&& text_at(j, "redemptionDurationType"@, self.redemption_duration_type)
        &&& text_at(j, "isSales"@, self.is_sales)
        &&& text_at(j, "salesDurationType"@, self.sales_duration_type)
        &&& Values::list_read(j, "salesValues"@, self.sales_values@)
    }

    /// Decodes every field from its member of `v`; absent and mistyped
    /// members leave the field empty.
    pub fn from_json(v: &serde_json::Value) -> (r: Self)
        ensures
            r.read_from(json_model(*v)),
    {
        Redemption {
            min_month: text_field(v, "minMonth"),
            fee_percent: text_field(v, "feePercent"),
            is_front_end: text_field(v, "isFrontEnd"),
            front_end_values: Values::list_from_member(v, "frontEndValues"),
            redemption_duration_type: text_field(v, "redemptionDurationType"),
            is_sales: text_field(v, "isSales"),
            sales_duration_type: text_field(v, "salesDurationType"),
            sales_values: Values::list_from_member(v, "salesValues"),
        }
    }

    /// `r` is the record decoded from member `key` of `j` when that member is
    /// an object, and absent otherwise.
    pub open spec fn member_read(j: JsonModel, key: Seq<char>, r: Option<Self>) -> bool {
        match member_of(j, key) {
            Some(m) => if m is Object {
                r is Some && r->0.read_from(m)
            } else {
                r is None
            },
            None => r is None,
        }
    }

    /// Decodes member `key` of `v` as a record, when it is an object.
    pub fn from_member(v: &serde_json::Value, key: &str) -> (r: Option<Self>)
        ensures
            Self::member_read(json_model(*v), key@, r),
    {
        match member(v, key) {
            Some(m) => if is_object(m) {
                Some(Self::from_json(m))
            } else {
                None
            },
            None => None,
        }
    }
}

/// One tier of a schedule: a range and its percentage.
#[derive(Debug, Clone)]
pub struct Values {
    pub low: Option<String>,
    pub high: Option<String>,
    pub percent: Option<String>,
}

impl Values {
    /// Each field holds what its own member of the object `j` gives it.
    pub open spec fn read_from(self, j: JsonModel) -> bool {
        &&& text_at(j, "low"@, self.low)
        &&& text_at(j, "high"@, self.high)
        &&& text_at(j, "percent"@, self.percent)
    }

    /// Decodes every field from its member of `v`; absent and mistyped
    /// members leave the field empty.
    pub fn from_json(v: &serde_json::Value) -> (r: Self)
        ensures
            r.read_from(json_model(*v)),
    {
        Values {
            low: text_field(v, "low"),
            high: text_field(v, "high"),
            percent: text_field(v, "percent"),
        }
    }

    /// `r` holds one record per element of the array under `key`, in order;
    /// it is empty when that member is absent or not an array.
    pub open spec fn list_read(j: JsonModel, key: Seq<char>, r: Seq<Self>) -> bool {
        match member_of(j, key) {
            Some(JsonModel::Array(s)) => r.len() == s.len() && forall|i: int|
                0 <= i < s.len() ==> #[trigger] r[i].read_from(s[i]),
            _ => r.len() == 0,
        }
    }

    /// Decodes each element of the array under `key` of `v` as a record.
    pub fn list_from_member(v: &serde_json::Value, key: &str) -> (r: Vec<Self>)
        ensures
            Self::list_read(json_model(*v), key@, r@),
    {
        let mut out: Vec<Self> = Vec::new();
        let items = match member(v, key) {
            Some(m) => as_array(m),
            None => None,
        };
        if let Some(items) = items {
            let ghost s = match member_of(json_model(*v), key@) {
                Some(JsonModel::Array(s)) => s,
                _ => Seq::empty(),
            };
            let mut i: usize = 0;
            while i < items.len()
                invariant
                    member_of(json_model(*v), key@) == Some(JsonModel::Array(s)),
                    items@.len() == s.len(),
                    forall|k: int| 0 <= k < s.len() ==> #[trigger] json_model(items@[k]) == s[k],
                    i <= items@.len(),
                    out@.len() == i,
                    forall|k: int| 0 <= k < i ==> #[trigger] out@[k].read_from(s[k]),
                decreases items@.len() - i,
            {
                let rec = Self::from_json(&items[i]);
                out.push(rec);
                i = i + 1;
            }
        }
        out
    }
}

/// One tier of a sales-charge schedule.
#[derive(Debug, Clone)]
pub struct SaleChargeValues {
    pub lowhigh: Option<String>,
    pub percent: Option<String>,
}

impl SaleChargeValues {
    /// Each field holds what its own member of the object `j` gives it.
    pub open spec fn read_from(self, j: JsonModel) -> bool {
        &&& text_at(j, "lowhigh"@, self.lowhigh)
        &&& text_at(j, "percent"@, self.percent)
    }

    /// Decodes every field from its member of `v`; absent and mistyped
    /// members leave the field empty.
    pub fn from_json(v: &serde_json::Value) -> (r: Self)
        ensures
            r.read_from(json_model(*v)),
    {
        SaleChargeValues {
            lowhigh: text_field(v, "lowhigh"),
            percent: text_field(v, "percent"),
        }
    }

    /// `r` holds one record per element of the array under `key`, in order;
    /// it is empty when that member is absent or not an array.
    pub open spec fn list_read(j: JsonModel, key: Seq<char>, r: Seq<Self>) -> bool {
        match member_of(j, key) {
            Some(JsonModel::Array(s)) => r.len() == s.len() && forall|i: int|
                0 <= i < s.len() ==> #[trigger] r[i].read_from(s[i]),
            _ => r.len() == 0,
        }
    }

    /// Decodes each element of the array under `key` of `v` as a record.
    pub fn list_from_member(v: &serde_json::Value, key: &str) -> (r: Vec<Self>)
        ensures
            Self::list_read(json_model(*v), key@, r@),
    {
        let mut out: Vec<Self> = Vec::new();
        let items = match member(v, key) {
            Some(m) => as_array(m),
            None => None,
        };
        if let Some(items) = items {
            let ghost s = match member_of(json_model(*v), key@) {
                Some(JsonModel::Array(s)) => s,
                _ => Seq::empty(),
            };
            let mut i: usize = 0;
            while i < items.len()
                invariant
                    member_of(json_model(*v), key@) == Some(JsonModel::Array(s)),
                    items@.len() == s.len(),
                    forall|k: int| 0 <= k < s.len() ==> #[trigger] json_model(items@[k]) == s[k],
                    i <= items@.len(),
                    out@.len() == i,
                    forall|k: int| 0 <= k < i ==> #[trigger] out@[k].read_from(s[k]),
                decreases items@.len() - i,
            {
                let rec = Self::from_json(&items[i]);
                out.push(rec);
                i = i + 1;
            }
        }
        out
    }
}

} // verus!

