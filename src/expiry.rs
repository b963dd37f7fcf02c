//! Option expiration dates and the decoder of their response.
use vstd::prelude::*;
use crate::error::DecodeError;
use crate::json::{
    JsonModel, json_model, integer_of, member, member_of, is_object, is_null, as_array, as_i64, text_at,
    integer_at, text_field,
};
use crate::quote::Messages;

verus! {

/// A date member is well formed: absent, or a number that is an integer
/// fitting an `i32`.
pub open spec fn date_member_ok(j: JsonModel, key: Seq<char>) -> bool {
    match member_of(j, key) {
        None => true,
        Some(JsonModel::Num(n)) => match integer_of(n) {
            Some(x) => i32::MIN <= x && x <= i32::MAX,
            None => false,
        },
        _ => false,
    }
}

/// The value of a well-formed date member, zero when it is absent.
pub open spec fn int32_at(j: JsonModel, key: Seq<char>) -> i32 {
    match integer_at(j, key) {
        Some(n) => n as i32,
        None => 0,
    }
}

fn int32_field(v: &serde_json::Value, key: &str) -> (r: Result<i32, DecodeError>)
    ensures
        r is Ok <==> date_member_ok(json_model(*v), key@),
        r matches Ok(n) ==> n == int32_at(json_model(*v), key@),
        r matches Err(e) ==> (e matches DecodeError::Structure { field } && field@ == key@),
{
    match member(v, key) {
        None => Ok(0),
        Some(m) => match as_i64(m) {
            Some(n) => if i32::MIN as i64 <= n && n <= i32::MAX as i64 {
                Ok(n as i32)
            } else {
                Err(DecodeError::Structure { field: key.to_string() })
            },
            None => Err(DecodeError::Structure { field: key.to_string() }),
        },
    }
}

/// A calendar date on which options expire, with the kind of expiration.
#[derive(Debug, Clone)]
pub struct ExpirationDate {
    pub year: i32,
    pub month: i32,
    pub day: i32,
    pub expiry_type: Option<String>,
}

/// A date object decodes: its year, month and day are each absent or an
/// integer that fits an `i32`.
pub open spec fn date_decodes(j: JsonModel) -> bool {
    &&& date_member_ok(j, "year"@)
    &&& date_member_ok(j, "month"@)
    &&& date_member_ok(j, "day"@)
}

/// `e` is the error of a date object that does not decode: a structure error
/// naming the first of year, month and day that is malformed.
pub open spec fn date_error(j: JsonModel, e: DecodeError) -> bool {
    e matches DecodeError::Structure { field } && if !date_member_ok(j, "year"@) {
        field@ == "year"@
    } else if !date_member_ok(j, "month"@) {
        field@ == "month"@
    } else {
        field@ == "day"@
    }
}

impl ExpirationDate {
    /// Each field holds what its own member of the object `j` gives it.
    pub open spec fn read_from(self, j: JsonModel) -> bool {
        &&& self.year == int32_at(j, "year"@)
        &&& self.month == int32_at(j, "month"@)
        &&& self.day == int32_at(j, "day"@)
        &&& text_at(j, "expiryType"@, self.expiry_type)
    }

    /// Decodes a date object. A year, month or day of the wrong kind, or out
    /// of range, is a structure error naming it; an absent one is zero.
    pub fn from_json(v: &serde_json::Value) -> (r: Result<Self, DecodeError>)
        ensures
            r is Ok <==> date_decodes(json_model(*v)),
            r matches Ok(d) ==> d.read_from(json_model(*v)),
            r matches Err(e) ==> date_error(json_model(*v), e),
    {
        let year = match int32_field(v, "year") {
            Ok(n) => n,
            Err(e) => {
                return Err(e);
            },
        };
        let month = match int32_field(v, "month") {
            Ok(n) => n,
            Err(e) => {
                return Err(e);
            },
        };
        let day = match int32_field(v, "day") {
            Ok(n) => n,
            Err(e) => {
                return Err(e);
            },
        };
        Ok(ExpirationDate { year, month, day, expiry_type: text_field(v, "expiryType") })
    }
}

/// The payload of an expiration-date response: the dates in the provider's
/// order, and its messages.
#[derive(Debug, Clone)]
pub struct OptionExpireDateResponse {
    pub expiration_dates: Vec<ExpirationDate>,
    pub messages: Messages,
}

/// An expiration payload decodes: it is an object whose date list is absent,
/// null, or an array of objects.
pub open spec fn expiration_payload_decodes(p: JsonModel) -> bool {
    &&& p is Object
    &&& match member_of(p, "ExpirationDate"@) {
        None => true,
        Some(JsonModel::Null) => true,
        Some(JsonModel::Array(s)) => forall|i: int| 0 <= i < s.len() ==> #[trigger] date_element_decodes(s[i]),
        _ => false,
    }
}

/// An element of the date list decodes: it is an object, and a valid date.
pub open spec fn date_element_decodes(j: JsonModel) -> bool {
    j is Object && date_decodes(j)
}

/// `e` is the error that the payload `p` gives: a payload that is not an
/// object, or a date list of the wrong kind, is a structure error naming that
/// member; otherwise the first element at fault decides, a non-object element
/// being a structure error naming the list, and a date one naming its field.
pub open spec fn expiration_payload_error(p: JsonModel, e: DecodeError) -> bool {
    if !(p is Object) {
        e matches DecodeError::Structure { field } && field@ == "OptionExpireDateResponse"@
    } else {
        match member_of(p, "ExpirationDate"@) {
            Some(JsonModel::Array(s)) => exists|i: int|
                0 <= i < s.len() && !#[trigger] date_element_decodes(s[i]) && (forall|k: int|
                    0 <= k < i ==> date_element_decodes(s[k])) && if s[i] is Object {
                    date_error(s[i], e)
                } else {
                    e matches DecodeError::Structure { field } && field@ == "ExpirationDate"@
                },
            _ => e matches DecodeError::Structure { field } && field@ == "ExpirationDate"@,
        }
    }
}

/// A document decodes as an expiration response: it has the envelope, and
/// the payload inside decodes.
pub open spec fn expiration_response_decodes(j: JsonModel) -> bool {
    match member_of(j, "OptionExpireDateResponse"@) {
        Some(p) => expiration_payload_decodes(p),
        None => false,
    }
}

impl OptionExpireDateResponse {
    /// The dates come from the elements of the date list of `p`, one each, in
    /// order; the messages from its message container.
    pub open spec fn read_from(self, p: JsonModel) -> bool {
        &&& match member_of(p, "ExpirationDate"@) {
            Some(JsonModel::Array(s)) => self.expiration_dates@.len() == s.len() && forall|i: int|
                0 <= i < s.len() ==> #[trigger] self.expiration_dates@[i].read_from(s[i]),
            _ => self.expiration_dates@.len() == 0,
        }
        &&& Messages::member_read(p, "Messages"@, self.messages)
    }
}

/// Decodes an expiration-date response document: the payload under
/// `OptionExpireDateResponse`. A document without that member is a
/// `MissingEnvelope` error; a payload, date list, date element, or year,
/// month or day of the wrong kind is a structure error naming that member.
pub fn decode_expiration_response(raw: &serde_json::Value) -> (r: Result<
    OptionExpireDateResponse,
    DecodeError,
>)
    ensures
        r is Ok <==> expiration_response_decodes(json_model(*raw)),
        r matches Ok(d) ==> d.read_from(member_of(json_model(*raw), "OptionExpireDateResponse"@)->0),
        member_of(json_model(*raw), "OptionExpireDateResponse"@) is None ==> (r matches Err(
            DecodeError::MissingEnvelope { envelope },
        ) && envelope@ == "OptionExpireDateResponse"@),
        member_of(json_model(*raw), "OptionExpireDateResponse"@) is Some ==> (r matches Err(e)
            ==> expiration_payload_error(
            member_of(json_model(*raw), "OptionExpireDateResponse"@)->0,
            e,
        )),
{
    let payload = match member(raw, "OptionExpireDateResponse") {
        Some(p) => p,
        None => {
            return Err(DecodeError::MissingEnvelope { envelope: "OptionExpireDateResponse".to_string() });
        },
    };
    let ghost p = json_model(*payload);
    if !is_object(payload) {
        return Err(DecodeError::Structure { field: "OptionExpireDateResponse".to_string() });
    }
    let mut dates: Vec<ExpirationDate> = Vec::new();
    if let Some(list) = member(payload, "ExpirationDate") {
        if !is_null(list) {
            let items = match as_array(list) {
                Some(items) => items,
                None => {
                    return Err(DecodeError::Structure { field: "ExpirationDate".to_string() });
                },
            };
            let ghost s = json_model(*list)->Array_0;
            let mut i: usize = 0;
            while i < items.len()
                invariant
                    member_of(json_model(*raw), "OptionExpireDateResponse"@) == Some(p),
                    p is Object,
                    member_of(p, "ExpirationDate"@) == Some(JsonModel::Array(s)),
                    items@.len() == s.len(),
                    forall|k: int| 0 <= k < s.len() ==> #[trigger] json_model(items@[k]) == s[k],
                    i <= items@.len(),
                    dates@.len() == i,
                    forall|k: int| 0 <= k < i ==> #[trigger] date_element_decodes(s[k]),
                    forall|k: int| 0 <= k < i ==> #[trigger] dates@[k].read_from(s[k]),
                decreases items@.len() - i,
            {
                assert(json_model(items@[i as int]) == s[i as int]);
                if !is_object(&items[i]) {
                    assert(!date_element_decodes(s[i as int]));
                    proof {
                        lemma_bad_date(p, s, i as int);
                    }
                    return Err(DecodeError::Structure { field: "ExpirationDate".to_string() });
                }
                match ExpirationDate::from_json(&items[i]) {
                    Ok(d) => {
                        dates.push(d);
                    },
                    Err(e) => {
                        assert(!date_element_decodes(s[i as int]));
                        proof {
                            lemma_bad_date(p, s, i as int);
                        }
                        return Err(e);
                    },
                }
                i = i + 1;
            }
        }
    }
    let messages = Messages::from_member(payload, "Messages");
    Ok(OptionExpireDateResponse { expiration_dates: dates, messages })
}

/// A date list with an element at fault makes the whole payload fail.
proof fn lemma_bad_date(p: JsonModel, s: Seq<JsonModel>, i: int)
    requires
        member_of(p, "ExpirationDate"@) == Some(JsonModel::Array(s)),
        0 <= i < s.len(),
        !date_element_decodes(s[i]),
    ensures
        !expiration_payload_decodes(p),
{
    assert(p is Object);
    let m = member_of(p, "ExpirationDate"@);
    assert(m matches Some(JsonModel::Array(t)) && t == s);
    if expiration_payload_decodes(p) {
        assert(date_element_decodes(s[i]));
    }
}

} // verus!
