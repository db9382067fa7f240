use vstd::prelude::*;
use vstd::string::*;

verus! {

/// The decimal digit `d`.
pub open spec fn digit(d: nat) -> char {
    seq!['0', '1', '2', '3', '4', '5', '6', '7', '8', '9'][d as int]
}

/// The decimal form of `n`, without leading zeros.
pub open spec fn decimal(n: nat) -> Seq<char>
    decreases n,
{
    if n < 10 {
        seq![digit(n)]
    } else {
        decimal(n / 10).push(digit(n % 10))
    }
}

fn digit_str(d: u64) -> (r: &'static str)
    requires
        d < 10,
    ensures
        r@ == seq![digit(d as nat)],
{
    proof {
        reveal_strlit("0");
        reveal_strlit("1");
        reveal_strlit("2");
        reveal_strlit("3");
        reveal_strlit("4");
        reveal_strlit("5");
        reveal_strlit("6");
        reveal_strlit("7");
        reveal_strlit("8");
        reveal_strlit("9");
    }
    let r = if d == 0 {
        "0"
    } else if d == 1 {
        "1"
    } else if d == 2 {
        "2"
    } else if d == 3 {
        "3"
    } else if d == 4 {
        "4"
    } else if d == 5 {
        "5"
    } else if d == 6 {
        "6"
    } else if d == 7 {
        "7"
    } else if d == 8 {
        "8"
    } else {
        "9"
    };
    assert(r@ =~= seq![digit(d as nat)]);
    r
}

/// Writes `n` in decimal.
pub fn decimal_string(n: u64) -> (r: String)
    ensures
        r@ == decimal(n as nat),
    decreases n,
{
    if n < 10 {
        String::from_str(digit_str(n))
    } else {
        let mut s = decimal_string(n / 10);
        s.append(digit_str(n % 10));
        assert(s@ =~= decimal(n as nat));
        s
    }
}

/// Writes the negative integer `n` in decimal, after a minus sign.
pub fn negative_string(n: i64) -> (r: String)
    requires
        n < 0,
    ensures
        r@ == "-"@ + decimal((-n) as nat),
{
    let magnitude: u64 = if n == i64::MIN {
        9223372036854775808u64
    } else {
        (-n) as u64
    };
    let mut r = String::from_str("-");
    r.append(decimal_string(magnitude).as_str());
    r
}

/// The query pair `key=value` when `v` is present, else nothing.
pub open spec fn opt_pair(key: Seq<char>, v: Option<String>) -> Seq<(Seq<char>, Seq<char>)> {
    match v {
        None => seq![],
        Some(s) => seq![(key, s@)],
    }
}

/// The query pair `key=n`, in decimal, when `n` is present, else nothing.
pub open spec fn opt_count_pair(key: Seq<char>, v: Option<usize>) -> Seq<(Seq<char>, Seq<char>)> {
    match v {
        None => seq![],
        Some(n) => seq![(key, decimal(n as nat))],
    }
}

fn push_opt(pairs: &mut Vec<(String, String)>, key: &str, v: &Option<String>)
    ensures
        final(pairs)@.map_values(|x: (String, String)| (x.0@, x.1@)) == old(pairs)@.map_values(
            |x: (String, String)| (x.0@, x.1@),
        ) + opt_pair(key@, *v),
{
    match v {
        Some(s) => {
            pairs.push((String::from_str(key), s.clone()));
        },
        None => {},
    }
    assert(pairs@.map_values(|x: (String, String)| (x.0@, x.1@)) =~= old(pairs)@.map_values(
        |x: (String, String)| (x.0@, x.1@),
    ) + opt_pair(key@, *v));
}

fn push_opt_count(pairs: &mut Vec<(String, String)>, key: &str, v: Option<usize>)
    ensures
        final(pairs)@.map_values(|x: (String, String)| (x.0@, x.1@)) == old(pairs)@.map_values(
            |x: (String, String)| (x.0@, x.1@),
        ) + opt_count_pair(key@, v),
{
    match v {
        Some(n) => {
            pairs.push((String::from_str(key), decimal_string(n as u64)));
        },
        None => {},
    }
    assert(pairs@.map_values(|x: (String, String)| (x.0@, x.1@)) =~= old(pairs)@.map_values(
        |x: (String, String)| (x.0@, x.1@),
    ) + opt_count_pair(key@, v));
}

/// The query of a supported-languages call.
#[derive(Debug)]
pub struct GetSupportedLanguagesQueryParams {
    /// The language to name the supported languages in; without it no names are returned.
    pub display_language_code: Option<String>,
    /// The model whose languages are listed.
    pub model: Option<String>,
}

impl GetSupportedLanguagesQueryParams {
    /// The query pairs, in order, of the parameters that are present.
    pub open spec fn query_pairs(self) -> Seq<(Seq<char>, Seq<char>)> {
        opt_pair("displayLanguageCode"@, self.display_language_code) + opt_pair("model"@, self.model)
    }

    /// The query pairs of the parameters that are present.
    pub fn to_pairs(&self) -> (r: Vec<(String, String)>)
        ensures
            r@.map_values(|x: (String, String)| (x.0@, x.1@)) == self.query_pairs(),
    {
        let mut pairs: Vec<(String, String)> = Vec::new();
        assert(pairs@.map_values(|x: (String, String)| (x.0@, x.1@)) =~= seq![]);
        push_opt(&mut pairs, "displayLanguageCode", &self.display_language_code);
        push_opt(&mut pairs, "model", &self.model);
        assert(pairs@.map_values(|x: (String, String)| (x.0@, x.1@)) =~= self.query_pairs());
        pairs
    }
}

/// The query of a list-glossaries call.
#[derive(Debug)]
pub struct ListGlossariesQueryParams {
    pub page_size: Option<usize>,
    pub page_token: Option<String>,
    pub filter: Option<String>,
}

impl ListGlossariesQueryParams {
    /// The query pairs, in order, of the parameters that are present.
    pub open spec fn query_pairs(self) -> Seq<(Seq<char>, Seq<char>)> {
        opt_count_pair("pageSize"@, self.page_size) + opt_pair("pageToken"@, self.page_token)
            + opt_pair("filter"@, self.filter)
    }

    /// The query pairs of the parameters that are present.
    pub fn to_pairs(&self) -> (r: Vec<(String, String)>)
        ensures
            r@.map_values(|x: (String, String)| (x.0@, x.1@)) == self.query_pairs(),
    {
        let mut pairs: Vec<(String, String)> = Vec::new();
        assert(pairs@.map_values(|x: (String, String)| (x.0@, x.1@)) =~= seq![]);
        push_opt_count(&mut pairs, "pageSize", self.page_size);
        push_opt(&mut pairs, "pageToken", &self.page_token);
        push_opt(&mut pairs, "filter", &self.filter);
        assert(pairs@.map_values(|x: (String, String)| (x.0@, x.1@)) =~= self.query_pairs());
        pairs
    }
}

/// The query of a list-operations call.
#[derive(Debug)]
pub struct ListOperationsQueryParams {
    pub filter: Option<String>,
    pub page_size: Option<usize>,
    pub page_token: Option<String>,
}

impl ListOperationsQueryParams {
    /// The query pairs, in order, of the parameters that are present.
    pub open spec fn query_pairs(self) -> Seq<(Seq<char>, Seq<char>)> {
        opt_pair("filter"@, self.filter) + opt_count_pair("pageSize"@, self.page_size) + opt_pair(
            "pageToken"@,
            self.page_token,
        )
    }

    /// The query pairs of the parameters that are present.
    pub fn to_pairs(&self) -> (r: Vec<(String, String)>)
        ensures
            r@.map_values(|x: (String, String)| (x.0@, x.1@)) == self.query_pairs(),
    {
        let mut pairs: Vec<(String, String)> = Vec::new();
        assert(pairs@.map_values(|x: (String, String)| (x.0@, x.1@)) =~= seq![]);
        push_opt(&mut pairs, "filter", &self.filter);
        push_opt_count(&mut pairs, "pageSize", self.page_size);
        push_opt(&mut pairs, "pageToken", &self.page_token);
        assert(pairs@.map_values(|x: (String, String)| (x.0@, x.1@)) =~= self.query_pairs());
        pairs
    }
}

} // verus!
