//! Exact-value limits on the keyword parameters of a tool's methods.
use crate::signature::views;
use vstd::prelude::*;

verus! {

/// A limit as the contracts see it: the methods it covers, the keyword
/// parameter it constrains, and the only value that parameter may take.
pub struct LimitModel {
    pub methods: Seq<Seq<char>>,
    pub param: Seq<char>,
    pub value: Seq<char>,
}

/// A keyword parameter named `param` of any method in `methods` must be
/// exactly `value`.
pub struct ParamLimit {
    pub methods: Vec<String>,
    pub param: String,
    pub value: String,
}

impl ParamLimit {
    /// The limit's methods, parameter and value.
    pub open spec fn model(self) -> LimitModel {
        LimitModel { methods: views(self.methods@), param: self.param@, value: self.value@ }
    }
}

/// The models of a sequence of limits.
pub open spec fn limit_models(ls: Seq<ParamLimit>) -> Seq<LimitModel> {
    ls.map_values(|l: ParamLimit| l.model())
}

/// The characters of an optional string.
pub open spec fn opt_view(o: Option<String>) -> Option<Seq<char>> {
    match o {
        Some(s) => Some(s@),
        None => None,
    }
}

/// Keyword arguments as the contracts see them: each name with its value
/// when that value is a string, `None` when it is not.
pub open spec fn keyword_views(kwargs: Seq<(String, Option<String>)>) -> Seq<(Seq<char>, Option<Seq<char>>)> {
    kwargs.map_values(|kv: (String, Option<String>)| (kv.0@, opt_view(kv.1)))
}

/// A call of `method` passing `value` for the keyword parameter `name`
/// breaks `limit`.
pub open spec fn breaks(limit: LimitModel, method: Seq<char>, name: Seq<char>, value: Option<Seq<char>>) -> bool {
    &&& limit.methods.contains(method)
    &&& limit.param == name
    &&& value != Some(limit.value)
}

/// The first limit, in order, that the keyword argument breaks.
pub open spec fn first_broken_limit(
    limits: Seq<LimitModel>,
    method: Seq<char>,
    name: Seq<char>,
    value: Option<Seq<char>>,
) -> Option<LimitModel>
    decreases limits.len(),
{
    if limits.len() == 0 {
        None
    } else if breaks(limits[0], method, name, value) {
        Some(limits[0])
    } else {
        first_broken_limit(limits.drop_first(), method, name, value)
    }
}

/// The message for a keyword parameter that breaks an exact-value limit.
pub open spec fn exact_message(param: Seq<char>, value: Seq<char>) -> Seq<char> {
    "ARGALA BLOCK [param_limits] -> Parameter '"@ + param + "' must be exactly '"@ + value + "'"@
}

/// The message for a keyword parameter above its maximum.
pub open spec fn max_message(param: Seq<char>) -> Seq<char> {
    "ARGALA BLOCK [param_limits] -> Parameter '"@ + param + "' exceeds its maximum"@
}

/// The keyword arguments are taken in order; the first one that breaks a
/// limit gives the message for the first limit it breaks.
pub open spec fn limit_violation(
    limits: Seq<LimitModel>,
    method: Seq<char>,
    kwargs: Seq<(Seq<char>, Option<Seq<char>>)>,
) -> Option<Seq<char>>
    decreases kwargs.len(),
{
    if kwargs.len() == 0 {
        None
    } else {
        match first_broken_limit(limits, method, kwargs[0].0, kwargs[0].1) {
            Some(l) => Some(exact_message(l.param, l.value)),
            None => limit_violation(limits, method, kwargs.drop_first()),
        }
    }
}

/// Whether `s` occurs in `v`.
pub fn contains_string(v: &Vec<String>, s: &str) -> (b: bool)
    ensures
        b == views(v@).contains(s@),
{
    let target = String::from_str(s);
    let n = v.len();
    let mut k: usize = 0;
    while k < n
        invariant
            n == v@.len(),
            target@ == s@,
            k <= n,
            forall|k2: int| 0 <= k2 < k ==> views(v@)[k2] != s@,
        decreases n - k,
    {
        if v[k] == target {
            assert(views(v@)[k as int] == s@);
            return true;
        }
        k = k + 1;
    }
    false
}

/// Whether a call of `method` passing `value` for `name` breaks `limit`.
fn breaks_exec(limit: &ParamLimit, method: &str, name: &String, value: &Option<String>) -> (b: bool)
    ensures
        b == breaks(limit.model(), method@, name@, opt_view(*value)),
{
    if !contains_string(&limit.methods, method) {
        return false;
    }
    if !(limit.param == *name) {
        return false;
    }
    match value {
        Some(v) => !(*v == limit.value),
        None => true,
    }
}

/// Checks the keyword arguments of a call of `method` against `limits`.
pub fn check_limits(limits: &Vec<ParamLimit>, method: &str, kwargs: &[(String, Option<String>)]) -> (r: Option<String>)
    ensures
        opt_view(r) == limit_violation(limit_models(limits@), method@, keyword_views(kwargs@)),
{
    let ghost ls = limit_models(limits@);
    let ghost ks = keyword_views(kwargs@);
    assert(ks.skip(0) =~= ks);
    let nk = kwargs.len();
    let nl = limits.len();
    let mut k: usize = 0;
    while k < nk
        invariant
            nk == kwargs@.len(),
            nl == limits@.len(),
            ls == limit_models(limits@),
            ks == keyword_views(kwargs@),
            k <= nk,
            limit_violation(ls, method@, ks) == limit_violation(ls, method@, ks.skip(k as int)),
        decreases nk - k,
    {
        let name = &kwargs[k].0;
        let value = &kwargs[k].1;
        assert(ks.skip(k as int)[0] == (name@, opt_view(*value)));
        assert(ks.skip(k as int).drop_first() =~= ks.skip(k + 1));
        assert(ls.skip(0) =~= ls);
        let mut j: usize = 0;
        while j < nl
            invariant
                nk == kwargs@.len(),
                nl == limits@.len(),
                ls == limit_models(limits@),
                ks == keyword_views(kwargs@),
                k < nk,
                j <= nl,
                ks.skip(k as int)[0] == (name@, opt_view(*value)),
                ks.skip(k as int).drop_first() == ks.skip(k + 1),
                limit_violation(ls, method@, ks) == limit_violation(ls, method@, ks.skip(k as int)),
                first_broken_limit(ls, method@, name@, opt_view(*value)) == first_broken_limit(
                    ls.skip(j as int),
                    method@,
                    name@,
                    opt_view(*value),
                ),
            decreases nl - j,
        {
            let limit = &limits[j];
            assert(ls.skip(j as int)[0] == limit.model());
            assert(ls.skip(j as int).drop_first() =~= ls.skip(j + 1));
            if breaks_exec(limit, method, name, value) {
                let mut m = String::from_str("ARGALA BLOCK [param_limits] -> Parameter '");
                m.append(limit.param.as_str());
                m.append("' must be exactly '");
                m.append(limit.value.as_str());
                m.append("'");
                return Some(m);
            }
            j = j + 1;
        }
        assert(ls.skip(nl as int) =~= Seq::<LimitModel>::empty());
        k = k + 1;
    }
    assert(ks.skip(nk as int) =~= Seq::<(Seq<char>, Option<Seq<char>>)>::empty());
    None
}

} // verus!
