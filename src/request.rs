//! Lookup parameters, and their encoding into a request path and query pairs.
use vstd::prelude::*;

verus! {

/// The most symbols one quote lookup may name.
pub const MAX_SYMBOLS: usize = 25;

/// Which detail block a quote lookup asks for.
#[allow(non_camel_case_types)]
#[derive(Debug, Clone, Copy, PartialEq, Eq)]
pub enum DetailFlag {
    ALL,
    FUNDAMENTAL,
    INTRADAY,
    OPTIONS,
    WEEK_52,
    MF_DETAIL,
}

impl DetailFlag {
    pub open spec fn spec_wire_name(self) -> Seq<char> {
        match self {
            DetailFlag::ALL => "ALL"@,
            DetailFlag::FUNDAMENTAL => "FUNDAMENTAL"@,
            DetailFlag::INTRADAY => "INTRADAY"@,
            DetailFlag::OPTIONS => "OPTIONS"@,
            DetailFlag::WEEK_52 => "WEEK_52"@,
            DetailFlag::MF_DETAIL => "MF_DETAIL"@,
        }
    }

    /// The name the service knows this selection by.
    pub fn wire_name(&self) -> (r: String)
        ensures
            r@ == self.spec_wire_name(),
    {
        match self {
            DetailFlag::ALL => "ALL".to_string(),
            DetailFlag::FUNDAMENTAL => "FUNDAMENTAL".to_string(),
            DetailFlag::INTRADAY => "INTRADAY".to_string(),
            DetailFlag::OPTIONS => "OPTIONS".to_string(),
            DetailFlag::WEEK_52 => "WEEK_52".to_string(),
            DetailFlag::MF_DETAIL => "MF_DETAIL".to_string(),
        }
    }
}

impl Default for DetailFlag {
    fn default() -> (r: Self)
        ensures
            r == DetailFlag::ALL,
    {
        DetailFlag::ALL
    }
}

/// Which expirations an expiration-date lookup lists.
#[derive(Debug, Clone, Copy, PartialEq, Eq)]
pub enum ExpiryType {
    Unspecified,
    All,
    Monthly,
    Weekly,
    Daily,
    Quarterly,
    Vix,
    MonthEnd,
}

impl ExpiryType {
    pub open spec fn spec_wire_name(self) -> Seq<char> {
        match self {
            ExpiryType::Unspecified => "UNSPECIFIED"@,
            ExpiryType::All => "ALL"@,
            ExpiryType::Monthly => "MONTHLY"@,
            ExpiryType::Weekly => "WEEKLY"@,
            ExpiryType::Daily => "DAILY"@,
            ExpiryType::Quarterly => "QUARTERLY"@,
            ExpiryType::Vix => "VIX"@,
            ExpiryType::MonthEnd => "MONTHEND"@,
        }
    }

    /// The name the service knows this filter by.
    pub fn wire_name(&self) -> (r: String)
        ensures
            r@ == self.spec_wire_name(),
    {
        match self {
            ExpiryType::Unspecified => "UNSPECIFIED".to_string(),
            ExpiryType::All => "ALL".to_string(),
            ExpiryType::Monthly => "MONTHLY".to_string(),
            ExpiryType::Weekly => "WEEKLY".to_string(),
            ExpiryType::Daily => "DAILY".to_string(),
            ExpiryType::Quarterly => "QUARTERLY".to_string(),
            ExpiryType::Vix => "VIX".to_string(),
            ExpiryType::MonthEnd => "MONTHEND".to_string(),
        }
    }
}

impl Default for ExpiryType {
    fn default() -> (r: Self)
        ensures
            r == ExpiryType::All,
    {
        ExpiryType::All
    }
}

/// Options of a quote lookup; an option left out lets the service decide.
#[derive(Debug, Clone)]
pub struct GetQuotesRequest {
    pub detail_flag: Option<DetailFlag>,
    pub require_earnings_date: Option<bool>,
    pub override_symbol_count: Option<bool>,
    pub skip_mini_options_check: Option<bool>,
}

impl Default for GetQuotesRequest {
    fn default() -> (r: Self)
        ensures
            r.detail_flag is None,
            r.require_earnings_date is None,
            r.override_symbol_count is None,
            r.skip_mini_options_check is None,
    {
        GetQuotesRequest {
            detail_flag: None,
            require_earnings_date: None,
            override_symbol_count: None,
            skip_mini_options_check: None,
        }
    }
}

/// Parameters of an expiration-date lookup: the underlying symbol, and the
/// kind of expirations wanted, all of them when left out.
#[derive(Debug, Clone)]
pub struct GetOptionExpireDatesRequest {
    pub symbol: String,
    pub expiry_type: Option<ExpiryType>,
}

impl Default for GetOptionExpireDatesRequest {
    fn default() -> (r: Self)
        ensures
            r.symbol@.len() == 0,
            r.expiry_type is None,
    {
        GetOptionExpireDatesRequest { symbol: String::new(), expiry_type: None }
    }
}

/// A request ready for the transport: the path, and the query as name and
/// value pairs in order, not yet escaped.
#[derive(Debug, Clone)]
pub struct EncodedQuery {
    pub path: String,
    pub params: Vec<(String, String)>,
}

impl EncodedQuery {
    pub open spec fn params_view(self) -> Seq<(Seq<char>, Seq<char>)> {
        self.params@.map_values(|p: (String, String)| (p.0@, p.1@))
    }
}

/// A lookup refused before anything is sent.
#[derive(Debug, Clone, Copy, PartialEq, Eq)]
pub enum ValidationError {
    /// No symbol was given.
    NoSymbols,
    /// More than `MAX_SYMBOLS` symbols were given; `count` is how many.
    TooManySymbols { count: usize },
}

/// The symbols joined by commas, in the order given, each written as it is.
pub open spec fn join_symbols(s: Seq<Seq<char>>) -> Seq<char>
    decreases s.len(),
{
    if s.len() == 0 {
        Seq::empty()
    } else if s.len() == 1 {
        s[0]
    } else {
        join_symbols(s.drop_last()) + seq![','] + s.last()
    }
}

/// Where the `i`-th symbol starts in the joined segment: after every earlier
/// symbol and its comma.
pub open spec fn symbol_offset(s: Seq<Seq<char>>, i: int) -> int
    decreases i,
{
    if i <= 0 {
        0
    } else {
        symbol_offset(s, i - 1) + s[i - 1].len() + 1
    }
}

proof fn lemma_offset_drop_last(s: Seq<Seq<char>>, i: int)
    requires
        0 <= i < s.len(),
    ensures
        symbol_offset(s.drop_last(), i) == symbol_offset(s, i),
        symbol_offset(s, i) >= 0,
    decreases i,
{
    if i > 0 {
        lemma_offset_drop_last(s, i - 1);
    }
}

proof fn lemma_join_len(s: Seq<Seq<char>>)
    requires
        s.len() > 0,
    ensures
        join_symbols(s).len() == symbol_offset(s, s.len() - 1) + s.last().len(),
    decreases s.len(),
{
    if s.len() > 1 {
        lemma_join_len(s.drop_last());
        lemma_offset_drop_last(s, s.len() - 2);
    }
}

/// The joined segment keeps every symbol, in the order given: the `i`-th
/// symbol stands whole at its offset, and a comma follows it unless it is the
/// last. Nothing is sorted, merged or dropped.
pub proof fn lemma_join_keeps_order(s: Seq<Seq<char>>, i: int)
    requires
        0 <= i < s.len(),
    ensures
        symbol_offset(s, i) + s[i].len() <= join_symbols(s).len(),
        join_symbols(s).subrange(symbol_offset(s, i), symbol_offset(s, i) + s[i].len()) == s[i],
        i + 1 < s.len() ==> join_symbols(s)[symbol_offset(s, i) + s[i].len()] == ',',
    decreases s.len(),
{
    let n = s.len();
    if n == 1 {
        assert(join_symbols(s).subrange(0, s[0].len() as int) =~= s[0]);
    } else {
        let t = s.drop_last();
        let j = join_symbols(t);
        assert(join_symbols(s) == j + seq![','] + s.last());
        lemma_join_len(t);
        lemma_offset_drop_last(s, n - 2);
        assert(j.len() == symbol_offset(s, n - 2) + s[n - 2].len());
        if i == n - 1 {
            assert(join_symbols(s).subrange(symbol_offset(s, i), symbol_offset(s, i) + s[i].len())
                =~= s[i]);
        } else {
            lemma_join_keeps_order(t, i);
            lemma_offset_drop_last(s, i);
            assert(t[i] == s[i]);
            assert(join_symbols(s).subrange(symbol_offset(s, i), symbol_offset(s, i) + s[i].len())
                =~= j.subrange(symbol_offset(s, i), symbol_offset(s, i) + s[i].len()));
            if i + 1 < n - 1 {
                lemma_join_keeps_order(t, i + 1);
                lemma_offset_drop_last(s, i + 1);
            }
        }
    }
}

pub open spec fn symbol_views(s: Seq<&str>) -> Seq<Seq<char>> {
    s.map_values(|x: &str| x@)
}

/// The path of a quote lookup for the symbols `s`.
pub open spec fn quote_path(s: Seq<Seq<char>>) -> Seq<char> {
    "/v1/market/quote/"@ + join_symbols(s)
}

pub open spec fn bool_word(b: bool) -> Seq<char> {
    if b {
        "true"@
    } else {
        "false"@
    }
}

/// The query pair of a boolean option, when it is set.
pub open spec fn flag_param(name: Seq<char>, v: Option<bool>) -> Seq<(Seq<char>, Seq<char>)> {
    match v {
        Some(b) => seq![(name, bool_word(b))],
        None => Seq::empty(),
    }
}

/// The query pairs of a quote lookup's options: one for each option that is
/// set, in declaration order.
pub open spec fn quote_params(p: GetQuotesRequest) -> Seq<(Seq<char>, Seq<char>)> {
    let detail = match p.detail_flag {
        Some(f) => seq![("detailFlag"@, f.spec_wire_name())],
        None => Seq::empty(),
    };
    detail + flag_param("requireEarningsDate"@, p.require_earnings_date) + flag_param(
        "overrideSymbolCount"@,
        p.override_symbol_count,
    ) + flag_param("skipMiniOptionsCheck"@, p.skip_mini_options_check)
}

fn push_flag(out: &mut Vec<(String, String)>, name: &str, v: Option<bool>)
    ensures
        final(out)@.map_values(|p: (String, String)| (p.0@, p.1@)) == old(out)@.map_values(
            |p: (String, String)| (p.0@, p.1@),
        ) + flag_param(name@, v),
{
    if let Some(b) = v {
        let word = if b {
            "true".to_string()
        } else {
            "false".to_string()
        };
        out.push((name.to_string(), word));
    }
    assert(final(out)@.map_values(|p: (String, String)| (p.0@, p.1@)) =~= old(out)@.map_values(
        |p: (String, String)| (p.0@, p.1@),
    ) + flag_param(name@, v));
}

fn join(symbols: &[&str]) -> (r: String)
    ensures
        r@ == join_symbols(symbol_views(symbols@)),
{
    proof {
        reveal_strlit(",");
    }
    assert(","@ =~= seq![',']);
    let ghost all = symbol_views(symbols@);
    let mut out = String::new();
    let mut i: usize = 0;
    while i < symbols.len()
        invariant
            i <= symbols@.len(),
            all == symbol_views(symbols@),
            ","@ == seq![','],
            out@ == join_symbols(all.subrange(0, i as int)),
        decreases symbols@.len() - i,
    {
        let ghost before = out@;
        if i > 0 {
            out.append(",");
        }
        out.append(symbols[i]);
        proof {
            let next = all.subrange(0, i + 1);
            assert(next.drop_last() =~= all.subrange(0, i as int));
            assert(next.last() == symbols@[i as int]@);
            if i == 0 {
                assert(next =~= seq![symbols@[0]@]);
            } else {
                assert(out@ =~= before + seq![','] + next.last());
            }
        }
        i = i + 1;
    }
    assert(all.subrange(0, symbols@.len() as int) =~= all);
    out
}

/// Validates and encodes a quote lookup. Between one and `MAX_SYMBOLS`
/// symbols give the path with the symbols joined in order, and one query pair
/// per option that is set; otherwise nothing is built.
pub fn build_quote_request(symbols: &[&str], params: Option<GetQuotesRequest>) -> (r: Result<
    EncodedQuery,
    ValidationError,
>)
    ensures
        symbols@.len() == 0 ==> r == Err::<EncodedQuery, ValidationError>(ValidationError::NoSymbols),
        symbols@.len() > MAX_SYMBOLS ==> r == Err::<EncodedQuery, ValidationError>(
            ValidationError::TooManySymbols { count: symbols@.len() as usize },
        ),
        1 <= symbols@.len() <= MAX_SYMBOLS ==> (r matches Ok(q) && q.path@ == quote_path(
            symbol_views(symbols@),
        ) && q.params_view() == match params {
            Some(p) => quote_params(p),
            None => Seq::empty(),
        }),
{
    if symbols.len() == 0 {
        return Err(ValidationError::NoSymbols);
    }
    if symbols.len() > MAX_SYMBOLS {
        return Err(ValidationError::TooManySymbols { count: symbols.len() });
    }
    let mut path = "/v1/market/quote/".to_string();
    let joined = join(symbols);
    path.append(joined.as_str());
    let mut query: Vec<(String, String)> = Vec::new();
    if let Some(p) = params {
        if let Some(f) = p.detail_flag {
            query.push(("detailFlag".to_string(), f.wire_name()));
        }
        assert(query@.map_values(|p: (String, String)| (p.0@, p.1@)) =~= match p.detail_flag {
            Some(f) => seq![("detailFlag"@, f.spec_wire_name())],
            None => Seq::<(Seq<char>, Seq<char>)>::empty(),
        });
        push_flag(&mut query, "requireEarningsDate", p.require_earnings_date);
        push_flag(&mut query, "overrideSymbolCount", p.override_symbol_count);
        push_flag(&mut query, "skipMiniOptionsCheck", p.skip_mini_options_check);
    }
    proof {
        if params is None {
            assert(query@.map_values(|p: (String, String)| (p.0@, p.1@)) =~= Seq::empty());
        }
    }
    Ok(EncodedQuery { path, params: query })
}

/// The query pairs of an expiration-date lookup.
pub open spec fn expiration_params(p: GetOptionExpireDatesRequest) -> Seq<(Seq<char>, Seq<char>)> {
    let kind = match p.expiry_type {
        Some(t) => t,
        None => ExpiryType::All,
    };
    seq![("symbol"@, p.symbol@), ("expiryType"@, kind.spec_wire_name())]
}

/// Encodes an expiration-date lookup: the symbol, and the expiration filter,
/// `ALL` when none is given.
pub fn build_expiration_request(params: &GetOptionExpireDatesRequest) -> (r: EncodedQuery)
    ensures
        r.path@ == "/v1/market/optionexpiredate"@,
        r.params_view() == expiration_params(*params),
{
    let kind = match params.expiry_type {
        Some(t) => t,
        None => ExpiryType::All,
    };
    let mut query: Vec<(String, String)> = Vec::new();
    query.push(("symbol".to_string(), params.symbol.clone()));
    query.push(("expiryType".to_string(), kind.wire_name()));
    assert(query@.map_values(|p: (String, String)| (p.0@, p.1@)) =~= expiration_params(*params));
    EncodedQuery { path: "/v1/market/optionexpiredate".to_string(), params: query }
}

} // verus!
