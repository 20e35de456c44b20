use vstd::prelude::*;
use crate::invite::opt_text;

verus! {

/// The name/value pairs that `application/x-www-form-urlencoded` parsing
/// finds in `query`, in order, with `+` and percent escapes decoded.
pub uninterp spec fn form_urlencoded_pairs(query: Seq<char>) -> Seq<(Seq<char>, Seq<char>)>;

/// The texts held by a vector of pairs of strings.
pub open spec fn text_pairs(v: Seq<(String, String)>) -> Seq<(Seq<char>, Seq<char>)> {
    v.map_values(|p: (String, String)| (p.0@, p.1@))
}

/// `url::form_urlencoded::parse(query.as_bytes()).into_owned()`, collected:
/// the name/value pairs of a query string, in the order they appear.
#[verifier::external_body]
fn parse_query(query: &str) -> (pairs: Vec<(String, String)>)
    ensures
        text_pairs(pairs@) == form_urlencoded_pairs(query@),
{
    url::form_urlencoded::parse(query.as_bytes()).into_owned().collect()
}

/// The value of the last pair named `name`, if any: when a name occurs
/// more than once, the last occurrence wins.
pub open spec fn last_value(pairs: Seq<(Seq<char>, Seq<char>)>, name: Seq<char>) -> Option<Seq<char>>
    decreases pairs.len(),
{
    if pairs.len() == 0 {
        None
    } else if pairs.last().0 == name {
        Some(pairs.last().1)
    } else {
        last_value(pairs.drop_last(), name)
    }
}

/// The name of the query parameter that holds the invite identifier.
pub open spec fn id_param() -> Seq<char> {
    "_id"@
}

/// The invite identifier that a page's query string carries: the value of
/// its last `_id` parameter; none without a query string.
pub open spec fn query_invite_param(query: Option<Seq<char>>) -> Option<Seq<char>> {
    match query {
        None => None,
        Some(q) => last_value(form_urlencoded_pairs(q), id_param()),
    }
}

/// The value of the last pair named `name` among `pairs`.
pub fn find_last_value(pairs: Vec<(String, String)>, name: &String) -> (value: Option<String>)
    ensures
        opt_text(value) == last_value(text_pairs(pairs@), name@),
{
    let mut found: Option<String> = None;
    let n: usize = pairs.len();
    let mut i: usize = 0;
    while i < n
        invariant
            n == pairs.len(),
            0 <= i <= n,
            opt_text(found) == last_value(text_pairs(pairs@).take(i as int), name@),
        decreases n - i,
    {
        let ghost all = text_pairs(pairs@);
        assert(all.take(i + 1).drop_last() == all.take(i as int));
        assert(all.take(i + 1).last() == all[i as int]);
        if pairs[i].0 == *name {
            found = Some(pairs[i].1.clone());
        }
        i = i + 1;
    }
    assert(text_pairs(pairs@).take(n as int) == text_pairs(pairs@));
    found
}

/// Looking a name up among query pairs finds the value of the last pair
/// with that name, wherever it stands: there is a value exactly when some
/// pair has the name, and then it is the value of a pair with the name
/// after which no pair has it.
pub proof fn lemma_last_value_is_last_occurrence(
    pairs: Seq<(Seq<char>, Seq<char>)>,
    name: Seq<char>,
)
    ensures
        last_value(pairs, name) is None <==> forall|i: int|
            0 <= i < pairs.len() ==> #[trigger] pairs[i].0 != name,
        last_value(pairs, name) is Some ==> exists|i: int|
            0 <= i < pairs.len() && #[trigger] pairs[i].0 == name && pairs[i].1 == last_value(
                pairs,
                name,
            ).unwrap() && forall|j: int| i < j < pairs.len() ==> #[trigger] pairs[j].0 != name,
    decreases pairs.len(),
{
    if pairs.len() > 0 {
        let init = pairs.drop_last();
        lemma_last_value_is_last_occurrence(init, name);
        let k = pairs.len() - 1;
        if pairs[k].0 == name {
            assert(pairs[k].0 == name);
        } else {
            assert forall|i: int| 0 <= i < init.len() implies init[i] == pairs[i] by {}
            if last_value(init, name) is Some {
                let i = choose|i: int|
                    0 <= i < init.len() && #[trigger] init[i].0 == name && init[i].1
                        == last_value(init, name).unwrap() && forall|j: int|
                        i < j < init.len() ==> #[trigger] init[j].0 != name;
                assert(pairs[i] == init[i]);
                assert forall|j: int| i < j < pairs.len() implies #[trigger] pairs[j].0 != name by {
                    if j < init.len() {
                        assert(pairs[j] == init[j]);
                    }
                }
            } else {
                assert forall|i: int| 0 <= i < pairs.len() implies #[trigger] pairs[i].0 != name by {
                    if i < init.len() {
                        assert(pairs[i] == init[i]);
                    }
                }
            }
        }
    }
}

/// A pair with another name added after the others changes nothing that is
/// found; a pair with the name added after the others is what is found.
pub proof fn lemma_last_value_append(
    pairs: Seq<(Seq<char>, Seq<char>)>,
    name: Seq<char>,
    extra: (Seq<char>, Seq<char>),
)
    ensures
        extra.0 != name ==> last_value(pairs.push(extra), name) == last_value(pairs, name),
        extra.0 == name ==> last_value(pairs.push(extra), name) == Some(extra.1),
        last_value(Seq::empty(), name) is None,
{
    assert(pairs.push(extra).drop_last() == pairs);
}

/// Parameters that follow the invite identifier in a query string do not
/// hide it: whenever any pair of the query is named `_id`, the identifier
/// is found, and it is the value of the last such pair.
pub proof fn lemma_id_found_wherever_it_stands(q: Seq<char>, i: int)
    requires
        0 <= i < form_urlencoded_pairs(q).len(),
        form_urlencoded_pairs(q)[i].0 == id_param(),
        forall|j: int|
            i < j < form_urlencoded_pairs(q).len() ==> #[trigger] form_urlencoded_pairs(q)[j].0
                != id_param(),
    ensures
        query_invite_param(Some(q)) == Some(form_urlencoded_pairs(q)[i].1),
        id_param() == seq!['_', 'i', 'd'],
{
    reveal_strlit("_id");
    let pairs = form_urlencoded_pairs(q);
    lemma_last_value_is_last_occurrence(pairs, id_param());
    assert(pairs[i].0 == id_param());
    let v = last_value(pairs, id_param());
    let k = choose|k: int|
        0 <= k < pairs.len() && #[trigger] pairs[k].0 == id_param() && pairs[k].1 == v.unwrap()
            && forall|j: int| k < j < pairs.len() ==> #[trigger] pairs[j].0 != id_param();
    if k < i {
        assert(pairs[i].0 != id_param());
    }
    if i < k {
        assert(pairs[k].0 != id_param());
    }
}

/// The invite identifier carried by a page's query string, if any.
pub fn invite_param(query: Option<&str>) -> (id: Option<String>)
    ensures
        opt_text(id) == query_invite_param(
            match query {
                Some(q) => Some(q@),
                None => None,
            },
        ),
{
    match query {
        None => None,
        Some(q) => {
            let pairs = parse_query(q);
            let name = String::from_str("_id");
            find_last_value(pairs, &name)
        },
    }
}

} // verus!
