//! Serialisation of optional request fields into a URL query string.
//!
//! Only the parameters whose value is present are emitted, in the fixed
//! order `exclude, extend, lang, units` (the historical endpoint has no
//! `extend`).  The exclude blocks are joined with commas into a single
//! parameter value, in caller-supplied order with duplicates kept.  An
//! empty exclude list contributes no `exclude=` parameter at all.
//!
//! Every value placed in the query comes out of the wire enum codec,
//! whose tokens consist only of characters that are legal in a query
//! string as they stand (lower-case letters, digits, `-` and the `,`
//! that joins exclude tokens, which this API accepts unescaped), so the
//! encoder emits each token verbatim.

use vstd::prelude::*;
use vstd::string::StrSliceExecFns;
use vstd::string::StringExecFns;
use crate::codec::ExcludeBlock;
use crate::codec::ExtendBy;
use crate::codec::Lang;
use crate::codec::Units;
use crate::codec::exclude_block_token;
use crate::codec::lemma_exclude_block_token_query_safe;
use crate::codec::url_query_safe_char;
use crate::codec::extend_by_token;
use crate::codec::lang_token;
use crate::codec::units_token;

verus! {

/// The comma-joined tokens of `ex`, in order, duplicates kept.
pub open spec fn spec_join_exclude(ex: Seq<ExcludeBlock>) -> Seq<char>
    decreases ex.len(),
{
    if ex.len() == 0 {
        Seq::<char>::empty()
    } else if ex.len() == 1 {
        exclude_block_token(ex[0])
    } else {
        spec_join_exclude(ex.drop_last()) + ","@ + exclude_block_token(ex.last())
    }
}

/// `q` extended by the parameter `key=value`, with `&` separating it
/// from any parameter already present.
pub open spec fn spec_add_param(q: Seq<char>, key: Seq<char>, value: Seq<char>) -> Seq<char> {
    if q.len() == 0 {
        key + "="@ + value
    } else {
        q + "&"@ + key + "="@ + value
    }
}

/// The query string (without the leading `?`) for a forecast request:
/// present parameters only, in the order `exclude, extend, lang, units`.
pub open spec fn spec_forecast_query(
    ex: Seq<ExcludeBlock>,
    extend: Option<ExtendBy>,
    lang: Option<Lang>,
    units: Option<Units>,
) -> Seq<char> {
    let q0 = Seq::<char>::empty();
    let q1 = if ex.len() > 0 {
        spec_add_param(q0, "exclude"@, spec_join_exclude(ex))
    } else {
        q0
    };
    let q2 = match extend {
        Some(e) => spec_add_param(q1, "extend"@, extend_by_token(e)),
        None => q1,
    };
    let q3 = match lang {
        Some(l) => spec_add_param(q2, "lang"@, lang_token(l)),
        None => q2,
    };
    match units {
        Some(u) => spec_add_param(q3, "units"@, units_token(u)),
        None => q3,
    }
}

/// The query string for a historical request: as for a forecast, but
/// with no `extend` parameter.
pub open spec fn spec_time_machine_query(
    ex: Seq<ExcludeBlock>,
    lang: Option<Lang>,
    units: Option<Units>,
) -> Seq<char> {
    spec_forecast_query(ex, None, lang, units)
}

/// Join the tokens of the given exclude blocks with commas, in order.
pub fn join_exclude(ex: &Vec<ExcludeBlock>) -> (s: String)
    ensures
        s@ == spec_join_exclude(ex@),
{
    let mut s = String::new();
    let mut i: usize = 0;
    while i < ex.len()
        invariant
            i <= ex@.len(),
            s@ == spec_join_exclude(ex@.take(i as int)),
        decreases ex@.len() - i,
    {
        if i > 0 {
            s.append(",");
        }
        s.append(ex[i].encode());
        proof {
            let pre = ex@.take(i as int);
            let post = ex@.take(i + 1 as int);
            assert(post.drop_last() =~= pre);
            assert(post.last() == ex@[i as int]);
            assert(s@ =~= spec_join_exclude(post));
        }
        i += 1;
    }
    proof {
        assert(ex@.take(ex@.len() as int) =~= ex@);
    }
    s
}

/// Append one `key=value` parameter to the query accumulated so far.
fn add_param(q: String, key: &str, value: &str) -> (r: String)
    ensures
        r@ == spec_add_param(q@, key@, value@),
{
    let mut r = q;
    if r.as_str().is_empty() {
        r.append(key);
        r.append("=");
        r.append(value);
        proof {
            assert(r@ =~= key@ + "="@ + value@);
        }
    } else {
        r.append("&");
        r.append(key);
        r.append("=");
        r.append(value);
    }
    r
}

/// Build the query string for a forecast request.
pub fn forecast_query(
    exclude: &Vec<ExcludeBlock>,
    extend: &Option<ExtendBy>,
    lang: &Option<Lang>,
    units: &Option<Units>,
) -> (q: String)
    ensures
        q@ == spec_forecast_query(exclude@, *extend, *lang, *units),
{
    let mut q = String::new();
    if exclude.len() > 0 {
        let joined = join_exclude(exclude);
        q = add_param(q, "exclude", joined.as_str());
    }
    if let Some(e) = extend {
        q = add_param(q, "extend", e.encode());
    }
    if let Some(l) = lang {
        q = add_param(q, "lang", l.encode());
    }
    if let Some(u) = units {
        q = add_param(q, "units", u.encode());
    }
    q
}

/// Build the query string for a historical request.
pub fn time_machine_query(
    exclude: &Vec<ExcludeBlock>,
    lang: &Option<Lang>,
    units: &Option<Units>,
) -> (q: String)
    ensures
        q@ == spec_time_machine_query(exclude@, *lang, *units),
{
    forecast_query(exclude, &None, lang, units)
}

/// Law: a request with no optional field set contributes no query
/// parameter at all.
pub proof fn lemma_empty_query()
    ensures
        spec_forecast_query(Seq::<ExcludeBlock>::empty(), None, None, None) == Seq::<char>::empty(),
        spec_time_machine_query(Seq::<ExcludeBlock>::empty(), None, None) == Seq::<char>::empty(),
{
}

/// A string fit to stand verbatim as the value of the `exclude`
/// parameter: every character either needs no percent-escaping or is
/// the joining comma, which this API accepts unescaped.
pub open spec fn url_query_value(s: Seq<char>) -> bool {
    forall|i: int| 0 <= i < s.len() ==> (url_query_safe_char(#[trigger] s[i]) || s[i] == ',')
}

/// Law: the comma-joined exclude value needs no percent-escaping
/// beyond the comma convention, whatever blocks the caller supplied,
/// so the query encoder may emit it verbatim.
pub proof fn lemma_join_exclude_query_value(ex: Seq<ExcludeBlock>)
    ensures
        url_query_value(spec_join_exclude(ex)),
    decreases ex.len(),
{
    if ex.len() == 0 {
    } else if ex.len() == 1 {
        lemma_exclude_block_token_query_safe(ex[0]);
    } else {
        lemma_join_exclude_query_value(ex.drop_last());
        lemma_exclude_block_token_query_safe(ex.last());
        reveal_strlit(",");
        assert(","@.len() == 1);
        assert(","@[0] == ',');
    }
}

/// Law: joining exclude blocks preserves caller-supplied order,
/// duplicates included -- the joined value of one list appended to
/// another is the two joined values with a comma between them.
pub proof fn lemma_join_exclude_append(ex1: Seq<ExcludeBlock>, ex2: Seq<ExcludeBlock>)
    requires
        ex1.len() > 0,
        ex2.len() > 0,
    ensures
        spec_join_exclude(ex1 + ex2) == spec_join_exclude(ex1) + ","@ + spec_join_exclude(ex2),
    decreases ex2.len(),
{
    if ex2.len() == 1 {
        assert((ex1 + ex2).drop_last() =~= ex1);
        assert((ex1 + ex2).last() == ex2[0]);
        assert(spec_join_exclude(ex1 + ex2) == spec_join_exclude(ex1) + ","@ + exclude_block_token(
            ex2[0],
        ));
    } else {
        lemma_join_exclude_append(ex1, ex2.drop_last());
        assert((ex1 + ex2).drop_last() =~= ex1 + ex2.drop_last());
        assert((ex1 + ex2).last() == ex2.last());
        assert(spec_join_exclude(ex1 + ex2) == (spec_join_exclude(ex1) + ","@ + spec_join_exclude(
            ex2.drop_last(),
        )) + ","@ + exclude_block_token(ex2.last()));
        assert(spec_join_exclude(ex1 + ex2) =~= spec_join_exclude(ex1) + ","@ + (spec_join_exclude(
            ex2.drop_last(),
        ) + ","@ + exclude_block_token(ex2.last())));
    }
}

} // verus!
