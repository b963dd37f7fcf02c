//! Quote records and the decoder of a quote response.
use vstd::prelude::*;
use crate::details::{
    AllQuoteDetails, FundamentalQuoteDetails, IntraQuoteDetails, OptionQuoteDetails, Week52QuoteDetails,
};
use crate::error::DecodeError;
use crate::flexible::{flexible_bool, flexible_bool_of};
use crate::fund::MutualFund;
use crate::request::DetailFlag;
use crate::json::{
    JsonModel, json_model, member, member_of, is_object, is_null, as_array, text_at, number_at,
    integer_at, flag_at, text_field, number_field, integer_field, flag_field,
};

verus! {

/// The identity of a quoted product: its symbol, kind, and for an option its contract terms.
#[derive(Debug, Clone)]
pub struct Product {
    pub symbol: Option<String>,
    pub security_type: Option<String>,
    pub security_sub_type: Option<String>,
    pub call_put: Option<String>,
    pub expiry_year: Option<i64>,
    pub expiry_month: Option<i64>,
    pub expiry_day: Option<i64>,
    pub strike_price: Option<serde_json::Number>,
    pub expiry_type: Option<String>,
}

impl Product {
    /// Each field holds what its own member of the object `j` gives it.
    pub open spec fn read_from(self, j: JsonModel) -> bool {
        &&& text_at(j, "symbol"@, self.symbol)
        &&& text_at(j, "securityType"@, self.security_type)
        &&& text_at(j, "securitySubType"@, self.security_sub_type)
        &&& text_at(j, "callPut"@, self.call_put)
        &&& self.expiry_year == integer_at(j, "expiryYear"@)
        &&& self.expiry_month == integer_at(j, "expiryMonth"@)
        &&& self.expiry_day == integer_at(j, "expiryDay"@)
        &&& self.strike_price == number_at(j, "strikePrice"@)
        &&& text_at(j, "expiryType"@, self.expiry_type)
    }

    /// Decodes every field from its member of `v`; absent and mistyped
    /// members leave the field empty.
    pub fn from_json(v: &serde_json::Value) -> (r: Self)
        ensures
            r.read_from(json_model(*v)),
    {
        Product {
            symbol: text_field(v, "symbol"),
            security_type: text_field(v, "securityType"),
            security_sub_type: text_field(v, "securitySubType"),
            call_put: text_field(v, "callPut"),
            expiry_year: integer_field(v, "expiryYear"),
            expiry_month: integer_field(v, "expiryMonth"),
            expiry_day: integer_field(v, "expiryDay"),
            strike_price: number_field(v, "strikePrice"),
            expiry_type: text_field(v, "expiryType"),
        }
    }

    /// `r` is the record decoded from member `key` of `j` when that member is
    /// an object, and absent otherwise.
    pub open spec fn member_read(j: JsonModel, key: Seq<char>, r: Option<Self>) -> bool {
        match member_of(j, key) {
            Some(m) => if m is Object {
                r is Some && r->0.read_from(m)
            } else {
                r is None
            },
            None => r is None,
        }
    }

    /// Decodes member `key` of `v` as a record, when it is an object.
    pub fn from_member(v: &serde_json::Value, key: &str) -> (r: Option<Self>)
        ensures
            Self::member_read(json_model(*v), key@, r),
    {
        match member(v, key) {
            Some(m) => if is_object(m) {
                Some(Self::from_json(m))
            } else {
                None
            },
            None => None,
        }
    }
}

/// An informational or error message from the provider.
#[derive(Debug, Clone)]
pub struct Message {
    pub description: Option<String>,
    pub code: Option<i64>,
    pub message_type: Option<String>,
}

impl Message {
    /// Each field holds what its own member of the object `j` gives it.
    pub open spec fn read_from(self, j: JsonModel) -> bool {
        &&& text_at(j, "description"@, self.description)
        &&& self.code == integer_at(j, "code"@)
        &&& text_at(j, "type"@, self.message_type)
    }

    /// Decodes every field from its member of `v`; absent and mistyped
    /// members leave the field empty.
    pub fn from_json(v: &serde_json::Value) -> (r: Self)
        ensures
            r.read_from(json_model(*v)),
    {
        Message {
            description: text_field(v, "description"),
            code: integer_field(v, "code"),
            message_type: text_field(v, "type"),
        }
    }

    /// `r` holds one record per element of the array under `key`, in order;
    /// it is empty when that member is absent or not an array.
    pub open spec fn list_read(j: JsonModel, key: Seq<char>, r: Seq<Self>) -> bool {
        match member_of(j, key) {
            Some(JsonModel::Array(s)) => r.len() == s.len() && forall|i: int|
                0 <= i < s.len() ==> #[trigger] r[i].read_from(s[i]),
            _ => r.len() == 0,
        }
    }

    /// Decodes each element of the array under `key` of `v` as a record.
    pub fn list_from_member(v: &serde_json::Value, key: &str) -> (r: Vec<Self>)
        ensures
            Self::list_read(json_model(*v), key@, r@),
    {
        let mut out: Vec<Self> = Vec::new();
        let items = match member(v, key) {
            Some(m) => as_array(m),
            None => None,
        };
        if let Some(items) = items {
            let ghost s = match member_of(json_model(*v), key@) {
                Some(JsonModel::Array(s)) => s,
                _ => Seq::empty(),
            };
            let mut i: usize = 0;
            while i < items.len()
                invariant
                    member_of(json_model(*v), key@) == Some(JsonModel::Array(s)),
                    items@.len() == s.len(),
                    forall|k: int| 0 <= k < s.len() ==> #[trigger] json_model(items@[k]) == s[k],
                    i <= items@.len(),
                    out@.len() == i,
                    forall|k: int| 0 <= k < i ==> #[trigger] out@[k].read_from(s[k]),
                decreases items@.len() - i,
            {
                let rec = Self::from_json(&items[i]);
                out.push(rec);
                i = i + 1;
            }
        }
        out
    }
}

/// The provider's messages that came with a response.
#[derive(Debug, Clone)]
pub struct Messages {
    pub message: Vec<Message>,
}

impl Messages {
    /// Each field holds what its own member of the object `j` gives it.
    pub open spec fn read_from(self, j: JsonModel) -> bool {
        &&& Message::list_read(j, "Message"@, self.message@)
    }

    /// Decodes every field from its member of `v`; absent and mistyped
    /// members leave the field empty.
    pub fn from_json(v: &serde_json::Value) -> (r: Self)
        ensures
            r.read_from(json_model(*v)),
    {
        Messages {
            message: Message::list_from_member(v, "Message"),
        }
    }
}



impl Messages {
    /// A container with no message.
    pub fn new() -> (r: Self)
        ensures
            r.message@.len() == 0,
    {
        Messages { message: Vec::new() }
    }

    pub fn is_empty(&self) -> (r: bool)
        ensures
            r == (self.message@.len() == 0),
    {
        self.message.len() == 0
    }

    /// `r` holds the messages under `key` of `j`; an absent member gives an
    /// empty container.
    pub open spec fn member_read(j: JsonModel, key: Seq<char>, r: Self) -> bool {
        match member_of(j, key) {
            Some(m) => r.read_from(m),
            None => r.message@.len() == 0,
        }
    }

    /// Decodes the messages under `key` of `v`, empty when there are none.
    pub fn from_member(v: &serde_json::Value, key: &str) -> (r: Self)
        ensures
            Self::member_read(json_model(*v), key@, r),
    {
        match member(v, key) {
            Some(m) => Self::from_json(m),
            None => Self::new(),
        }
    }
}

/// One quoted symbol: its detail blocks, each present only when the provider
/// sent it, its identity and timestamps, its market status, and a message the
/// provider may report for this symbol alone.
#[derive(Debug, Clone)]
pub struct QuoteData {
    pub all: Option<AllQuoteDetails>,
    pub date_time: Option<String>,
    pub date_time_utc: Option<i64>,
    pub quote_status: Option<String>,
    pub ah_flag: Option<bool>,
    pub error_message: Option<String>,
    pub fundamental: Option<FundamentalQuoteDetails>,
    pub intraday: Option<IntraQuoteDetails>,
    pub option: Option<OptionQuoteDetails>,
    pub product: Option<Product>,
    pub week52: Option<Week52QuoteDetails>,
    pub mutual_fund: Option<MutualFund>,
    pub time_zone: Option<String>,
    pub dst_flag: Option<bool>,
    pub has_mini_options: Option<bool>,
}

/// The after-hours flag that a record object `j` gives: absent when the
/// member is missing, `None` when the member is not a valid encoding.
pub open spec fn ah_flag_of(j: JsonModel) -> Option<Option<bool>> {
    match member_of(j, "ahFlag"@) {
        Some(m) => flexible_bool_of(m),
        None => Some(None),
    }
}

/// `e` is the error of a malformed after-hours flag in the record object `j`:
/// it names the member, and carries the offending string when the member is one.
pub open spec fn ah_flag_error(j: JsonModel, e: DecodeError) -> bool {
    &&& e matches DecodeError::InvalidBooleanEncoding { field, .. } && field@ == "ahFlag"@
    &&& match member_of(j, "ahFlag"@) {
        Some(JsonModel::Str(t)) => e matches DecodeError::InvalidBooleanEncoding { raw, .. } && raw@ == t,
        _ => true,
    }
}

impl QuoteData {
    /// A record object decodes unless its after-hours flag is malformed;
    /// no other member can make it fail.
    pub open spec fn decodes(j: JsonModel) -> bool {
        ah_flag_of(j) is Some
    }

    /// Each field holds what its own member of the object `j` gives it.
    pub open spec fn read_from(self, j: JsonModel) -> bool {
        &&& AllQuoteDetails::member_read(j, "All"@, self.all)
        &&& text_at(j, "dateTime"@, self.date_time)
        &&& self.date_time_utc == integer_at(j, "dateTimeUTC"@)
        &&& text_at(j, "quoteStatus"@, self.quote_status)
        &&& ah_flag_of(j) == Some(self.ah_flag)
        &&& text_at(j, "errorMessage"@, self.error_message)
        &&& FundamentalQuoteDetails::member_read(j, "fundamental"@, self.fundamental)
        &&& IntraQuoteDetails::member_read(j, "intraday"@, self.intraday)
        &&& OptionQuoteDetails::member_read(j, "option"@, self.option)
        &&& Product::member_read(j, "Product"@, self.product)
        &&& Week52QuoteDetails::member_read(j, "week52"@, self.week52)
        &&& MutualFund::member_read(j, "MutualFund"@, self.mutual_fund)
        &&& text_at(j, "timeZone"@, self.time_zone)
        &&& self.dst_flag == flag_at(j, "dstFlag"@)
        &&& self.has_mini_options == flag_at(j, "hasMiniOptions"@)
    }

    /// Decodes a record object. Fails only on a malformed after-hours flag.
    pub fn from_json(v: &serde_json::Value) -> (r: Result<Self, DecodeError>)
        ensures
            r is Ok <==> Self::decodes(json_model(*v)),
            r matches Ok(d) ==> d.read_from(json_model(*v)),
            r matches Err(e) ==> ah_flag_error(json_model(*v), e),
    {
        let ah_flag = match member(v, "ahFlag") {
            Some(m) => match flexible_bool(m, "ahFlag") {
                Ok(b) => b,
                Err(e) => {
                    return Err(e);
                },
            },
            None => None,
        };
        Ok(
            QuoteData {
                all: AllQuoteDetails::from_member(v, "All"),
                date_time: text_field(v, "dateTime"),
                date_time_utc: integer_field(v, "dateTimeUTC"),
                quote_status: text_field(v, "quoteStatus"),
                ah_flag,
                error_message: text_field(v, "errorMessage"),
                fundamental: FundamentalQuoteDetails::from_member(v, "fundamental"),
                intraday: IntraQuoteDetails::from_member(v, "intraday"),
                option: OptionQuoteDetails::from_member(v, "option"),
                product: Product::from_member(v, "Product"),
                week52: Week52QuoteDetails::from_member(v, "week52"),
                mutual_fund: MutualFund::from_member(v, "MutualFund"),
                time_zone: text_field(v, "timeZone"),
                dst_flag: flag_field(v, "dstFlag"),
                has_mini_options: flag_field(v, "hasMiniOptions"),
            },
        )
    }
}

/// The payload of a quote response: one record per requested symbol, in the
/// order of the request, and the provider's messages.
#[derive(Debug, Clone)]
pub struct QuoteResponse {
    pub quote_data: Vec<QuoteData>,
    pub messages: Messages,
}

/// An element of the record list decodes: it is an object, and a valid record.
pub open spec fn record_decodes(j: JsonModel) -> bool {
    j is Object && QuoteData::decodes(j)
}

/// A quote payload decodes: it is an object whose record list is absent,
/// null, or an array of records that decode.
pub open spec fn quote_payload_decodes(p: JsonModel) -> bool {
    &&& p is Object
    &&& match member_of(p, "QuoteData"@) {
        None => true,
        Some(JsonModel::Null) => true,
        Some(JsonModel::Array(s)) => forall|i: int| 0 <= i < s.len() ==> #[trigger] record_decodes(s[i]),
        _ => false,
    }
}

/// A document decodes as a quote response: it has the envelope, and the
/// payload inside decodes.
pub open spec fn quote_response_decodes(j: JsonModel) -> bool {
    match member_of(j, "QuoteResponse"@) {
        Some(p) => quote_payload_decodes(p),
        None => false,
    }
}

/// `e` is the error that the payload `p` gives: a payload that is not an
/// object, or a record list of the wrong kind, is a structure error naming
/// that member; otherwise the first element at fault decides, a non-object
/// element being a structure error and a record a boolean-encoding error.
pub open spec fn quote_payload_error(p: JsonModel, e: DecodeError) -> bool {
    if !(p is Object) {
        e matches DecodeError::Structure { field } && field@ == "QuoteResponse"@
    } else {
        match member_of(p, "QuoteData"@) {
            Some(JsonModel::Array(s)) => exists|i: int|
                0 <= i < s.len() && !#[trigger] record_decodes(s[i]) && (forall|k: int|
                    0 <= k < i ==> record_decodes(s[k])) && if s[i] is Object {
                    ah_flag_error(s[i], e)
                } else {
                    e matches DecodeError::Structure { field } && field@ == "QuoteData"@
                },
            _ => e matches DecodeError::Structure { field } && field@ == "QuoteData"@,
        }
    }
}

/// A record list with an element at fault makes the whole payload fail.
proof fn lemma_bad_record(p: JsonModel, s: Seq<JsonModel>, i: int)
    requires
        member_of(p, "QuoteData"@) == Some(JsonModel::Array(s)),
        0 <= i < s.len(),
        !record_decodes(s[i]),
    ensures
        !quote_payload_decodes(p),
{
    assert(p is Object);
    let m = member_of(p, "QuoteData"@);
    assert(m matches Some(JsonModel::Array(t)) && t == s);
    if quote_payload_decodes(p) {
        assert(forall|k: int| 0 <= k < s.len() ==> #[trigger] record_decodes(s[k]));
        assert(record_decodes(s[i]));
    }
}

impl QuoteResponse {
    /// The records come from the elements of the record list of `p`, one
    /// each, in order; the messages from its message container.
    pub open spec fn read_from(self, p: JsonModel) -> bool {
        &&& match member_of(p, "QuoteData"@) {
            Some(JsonModel::Array(s)) => self.quote_data@.len() == s.len() && forall|i: int|
                0 <= i < s.len() ==> #[trigger] self.quote_data@[i].read_from(s[i]),
            _ => self.quote_data@.len() == 0,
        }
        &&& Messages::member_read(p, "Messages"@, self.messages)
    }
}

/// Decodes a quote response document: the payload under `QuoteResponse`.
/// A document without that member is a `MissingEnvelope` error, never an
/// empty result; absent or mistyped optional members leave fields empty.
pub fn decode_quote_response(raw: &serde_json::Value) -> (r: Result<QuoteResponse, DecodeError>)
    ensures
        r is Ok <==> quote_response_decodes(json_model(*raw)),
        r matches Ok(q) ==> q.read_from(member_of(json_model(*raw), "QuoteResponse"@)->0),
        member_of(json_model(*raw), "QuoteResponse"@) is None ==> (r matches Err(
            DecodeError::MissingEnvelope { envelope },
        ) && envelope@ == "QuoteResponse"@),
        member_of(json_model(*raw), "QuoteResponse"@) is Some ==> (r matches Err(e) ==> quote_payload_error(
            member_of(json_model(*raw), "QuoteResponse"@)->0,
            e,
        )),
{
    let payload = match member(raw, "QuoteResponse") {
        Some(p) => p,
        None => {
            return Err(DecodeError::MissingEnvelope { envelope: "QuoteResponse".to_string() });
        },
    };
    let ghost p = json_model(*payload);
    if !is_object(payload) {
        return Err(DecodeError::Structure { field: "QuoteResponse".to_string() });
    }
    let mut quote_data: Vec<QuoteData> = Vec::new();
    if let Some(list) = member(payload, "QuoteData") {
        if !is_null(list) {
            let items = match as_array(list) {
                Some(items) => items,
                None => {
                    return Err(DecodeError::Structure { field: "QuoteData".to_string() });
                },
            };
            let ghost s = json_model(*list)->Array_0;
            let mut i: usize = 0;
            while i < items.len()
                invariant
                    member_of(json_model(*raw), "QuoteResponse"@) == Some(p),
                    p is Object,
                    member_of(p, "QuoteData"@) == Some(JsonModel::Array(s)),
                    items@.len() == s.len(),
                    forall|k: int| 0 <= k < s.len() ==> #[trigger] json_model(items@[k]) == s[k],
                    i <= items@.len(),
                    quote_data@.len() == i,
                    forall|k: int| 0 <= k < i ==> #[trigger] record_decodes(s[k]),
                    forall|k: int| 0 <= k < i ==> #[trigger] quote_data@[k].read_from(s[k]),
                decreases items@.len() - i,
            {
                assert(json_model(items@[i as int]) == s[i as int]);
                if !is_object(&items[i]) {
                    assert(!record_decodes(s[i as int]));
                    proof {
                        lemma_bad_record(p, s, i as int);
                    }
                    return Err(DecodeError::Structure { field: "QuoteData".to_string() });
                }
                match QuoteData::from_json(&items[i]) {
                    Ok(d) => {
                        quote_data.push(d);
                    },
                    Err(e) => {
                        assert(!record_decodes(s[i as int]));
                        return Err(e);
                    },
                }
                i = i + 1;
            }
        }
    }
    let messages = Messages::from_member(payload, "Messages");
    Ok(QuoteResponse { quote_data, messages })
}

/// The member of a record that carries the detail block a flag asks for.
pub open spec fn detail_key(flag: DetailFlag) -> Seq<char> {
    match flag {
        DetailFlag::ALL => "All"@,
        DetailFlag::FUNDAMENTAL => "fundamental"@,
        DetailFlag::INTRADAY => "intraday"@,
        DetailFlag::OPTIONS => "option"@,
        DetailFlag::WEEK_52 => "week52"@,
        DetailFlag::MF_DETAIL => "MutualFund"@,
    }
}

/// A quote response document whose records are the objects `records`.
pub open spec fn quote_document(records: Seq<Map<Seq<char>, JsonModel>>) -> JsonModel {
    JsonModel::Object(
        map![
            "QuoteResponse"@ => JsonModel::Object(
                map!["QuoteData"@ => JsonModel::Array(records.map_values(|m: Map<Seq<char>, JsonModel>| JsonModel::Object(m)))],
            ),
        ],
    )
}

/// A response to a lookup made with any detail flag, whose records carry only
/// the detail block that flag asks for, always decodes: no record fails for
/// lack of the other detail blocks.
pub proof fn lemma_requested_detail_suffices(flag: DetailFlag, records: Seq<Map<Seq<char>, JsonModel>>)
    requires
        forall|i: int| 0 <= i < records.len() ==> #[trigger] records[i].dom().subset_of(
            set![detail_key(flag)],
        ),
    ensures
        quote_response_decodes(quote_document(records)),
{
    reveal_strlit("ahFlag");
    reveal_strlit("All");
    reveal_strlit("fundamental");
    reveal_strlit("intraday");
    reveal_strlit("option");
    reveal_strlit("week52");
    reveal_strlit("MutualFund");
    assert("ahFlag"@[0] != detail_key(flag)[0] || "ahFlag"@.len() != detail_key(flag).len());
    assert("ahFlag"@ != detail_key(flag));
    let doc = quote_document(records);
    let s = records.map_values(|m: Map<Seq<char>, JsonModel>| JsonModel::Object(m));
    assert(member_of(doc, "QuoteResponse"@) == Some(JsonModel::Object(map!["QuoteData"@ => JsonModel::Array(s)])));
    let p = member_of(doc, "QuoteResponse"@)->0;
    assert(member_of(p, "QuoteData"@) == Some(JsonModel::Array(s)));
    assert forall|i: int| 0 <= i < s.len() implies #[trigger] record_decodes(s[i]) by {
        assert(s[i] == JsonModel::Object(records[i]));
        assert(records[i].dom().subset_of(set![detail_key(flag)]));
        assert(!records[i].contains_key("ahFlag"@));
        assert(member_of(s[i], "ahFlag"@) is None);
    }
}

} // verus!
