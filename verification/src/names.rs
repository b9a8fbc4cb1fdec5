//! Sets of names, kept as ascending lists.
use vstd::prelude::*;
use crate::text::chars_of;

verus! {

/// Where one text stands relative to another.
#[derive(Debug, Clone, Copy, PartialEq, Eq, Structural)]
pub enum TextOrder {
    Before,
    Same,
    After,
}

/// Where `a` stands relative to `b`: the first character in which they differ decides, and a
/// text stands after its own beginnings.
pub open spec fn text_order(a: Seq<char>, b: Seq<char>) -> TextOrder
    decreases a.len(),
{
    if a.len() == 0 && b.len() == 0 {
        TextOrder::Same
    } else if a.len() == 0 {
        TextOrder::Before
    } else if b.len() == 0 {
        TextOrder::After
    } else if a[0] < b[0] {
        TextOrder::Before
    } else if a[0] > b[0] {
        TextOrder::After
    } else {
        text_order(a.drop_first(), b.drop_first())
    }
}

/// Whether `a` stands before `b`.
pub open spec fn before(a: Seq<char>, b: Seq<char>) -> bool {
    text_order(a, b) is Before
}

/// Whether each name stands before those that follow it.
pub open spec fn ascending(names: Seq<Seq<char>>) -> bool {
    forall|i: int, j: int| 0 <= i < j < names.len() ==> before(#[trigger] names[i], #[trigger] names[j])
}

/// Whether two lists hold the same names.
pub open spec fn same_names(a: Seq<Seq<char>>, b: Seq<Seq<char>>) -> bool {
    forall|name: Seq<char>| #[trigger] a.contains(name) <==> b.contains(name)
}

/// A text is the same as another exactly where they are equal.
pub proof fn lemma_order_same(a: Seq<char>, b: Seq<char>)
    ensures
        text_order(a, b) is Same <==> a == b,
    decreases a.len(),
{
    if a.len() > 0 && b.len() > 0 {
        lemma_order_same(a.drop_first(), b.drop_first());
        if a[0] == b[0] && a.drop_first() == b.drop_first() {
            assert(a =~= seq![a[0]] + a.drop_first());
            assert(b =~= seq![b[0]] + b.drop_first());
        }
    } else if a.len() == 0 && b.len() == 0 {
        assert(a =~= b);
    }
}

/// The order can be read from both sides.
pub proof fn lemma_order_reversed(a: Seq<char>, b: Seq<char>)
    ensures
        text_order(a, b) is Before <==> text_order(b, a) is After,
        text_order(a, b) is Same <==> text_order(b, a) is Same,
    decreases a.len(),
{
    if a.len() > 0 && b.len() > 0 {
        lemma_order_reversed(a.drop_first(), b.drop_first());
    }
}

/// What stands before a text stands before all that the text stands before.
pub proof fn lemma_order_transitive(a: Seq<char>, b: Seq<char>, c: Seq<char>)
    requires
        before(a, b),
        before(b, c),
    ensures
        before(a, c),
    decreases a.len(),
{
    if a.len() > 0 && b.len() > 0 && c.len() > 0 && a[0] == b[0] && b[0] == c[0] {
        lemma_order_transitive(a.drop_first(), b.drop_first(), c.drop_first());
    }
}

/// Two ascending lists with the same names are equal.
pub proof fn lemma_ascending_unique(a: Seq<Seq<char>>, b: Seq<Seq<char>>)
    requires
        ascending(a),
        ascending(b),
        same_names(a, b),
    ensures
        a == b,
    decreases a.len(),
{
    if a.len() == 0 {
        if b.len() > 0 {
            assert(b.contains(b[0]));
            assert(a.contains(b[0]));
        }
        assert(a =~= b);
    } else {
        assert(a.contains(a.last()));
        assert(b.contains(a.last()));
        assert(b.len() > 0);
        assert(b.contains(b.last()));
        assert(a.contains(b.last()));
        let i = choose|i: int| 0 <= i < b.len() && b[i] == a.last();
        let j = choose|j: int| 0 <= j < a.len() && a[j] == b.last();
        if i < b.len() - 1 {
            assert(before(b[i], b[b.len() - 1]));
            if j < a.len() - 1 {
                assert(before(a[j], a[a.len() - 1]));
                lemma_order_reversed(a.last(), b.last());
            } else {
                lemma_order_same(a.last(), b.last());
            }
        }
        assert(a.last() == b.last());
        let x = a.drop_last();
        let y = b.drop_last();
        assert forall|name: Seq<char>| #[trigger] x.contains(name) <==> y.contains(name) by {
            lemma_order_same(name, a.last());
            if x.contains(name) {
                let k = choose|k: int| 0 <= k < x.len() && x[k] == name;
                assert(a[k] == name);
                assert(before(a[k], a[a.len() - 1]));
                assert(a.contains(name));
                assert(b.contains(name));
                let m = choose|m: int| 0 <= m < b.len() && b[m] == name;
                assert(m < b.len() - 1);
                assert(y[m] == name);
            }
            if y.contains(name) {
                let k = choose|k: int| 0 <= k < y.len() && y[k] == name;
                assert(b[k] == name);
                assert(before(b[k], b[b.len() - 1]));
                assert(b.contains(name));
                assert(a.contains(name));
                let m = choose|m: int| 0 <= m < a.len() && a[m] == name;
                assert(m < a.len() - 1);
                assert(x[m] == name);
            }
        }
        lemma_ascending_unique(x, y);
        assert(a =~= x.push(a.last()));
        assert(b =~= y.push(b.last()));
    }
}

/// Where `a` stands relative to `b`.
pub(crate) fn order_of(a: &str, b: &str) -> (r: TextOrder)
    ensures
        r == text_order(a@, b@),
{
    let left = chars_of(a);
    let right = chars_of(b);
    let mut index: usize = 0;
    assert(left@.skip(0) =~= left@);
    assert(right@.skip(0) =~= right@);
    while index < left.len() && index < right.len()
        invariant
            index <= left@.len(),
            index <= right@.len(),
            left@ == a@,
            right@ == b@,
            text_order(a@, b@) == text_order(left@.skip(index as int), right@.skip(index as int)),
        decreases left.len() - index,
    {
        proof {
            assert(left@.skip(index as int).drop_first() =~= left@.skip(index + 1));
            assert(right@.skip(index as int).drop_first() =~= right@.skip(index + 1));
        }
        if left[index] < right[index] {
            return TextOrder::Before;
        }
        if left[index] > right[index] {
            return TextOrder::After;
        }
        index += 1;
    }
    if index < left.len() {
        TextOrder::After
    } else if index < right.len() {
        TextOrder::Before
    } else {
        TextOrder::Same
    }
}

/// Whether a list holds a name.
pub(crate) fn holds_name(names: &[String], name: &str) -> (r: bool)
    ensures
        r == crate::model::texts(names@).contains(name@),
{
    let wanted = name.to_owned();
    let ghost texts = crate::model::texts(names@);
    let mut index: usize = 0;
    while index < names.len()
        invariant
            index <= names@.len(),
            wanted@ == name@,
            texts == crate::model::texts(names@),
            forall|i: int| 0 <= i < index ==> #[trigger] texts[i] != name@,
        decreases names.len() - index,
    {
        if names[index] == wanted {
            assert(texts[index as int] == name@);
            return true;
        }
        index += 1;
    }
    false
}

/// Puts a name in its place in an ascending list, unless it is there.
fn put_name(names: &mut Vec<String>, name: String)
    requires
        ascending(crate::model::texts(old(names)@)),
    ensures
        ascending(crate::model::texts(final(names)@)),
        forall|x: Seq<char>| #[trigger]
            crate::model::texts(final(names)@).contains(x) <==> crate::model::texts(
                old(names)@,
            ).contains(x) || x == name@,
{
    let ghost texts = crate::model::texts(names@);
    let ghost wanted = name@;
    let mut at: usize = names.len();
    while at > 0
        invariant
            names@ == old(names)@,
            texts == crate::model::texts(names@),
            ascending(texts),
            wanted == name@,
            at <= names@.len(),
            forall|i: int| at <= i < texts.len() ==> before(wanted, #[trigger] texts[i]),
        ensures
            names@ == old(names)@,
            at <= names@.len(),
            at > 0 ==> before(texts[at - 1], wanted),
            forall|i: int| at <= i < texts.len() ==> before(wanted, #[trigger] texts[i]),
        decreases at,
    {
        match order_of(name.as_str(), names[at - 1].as_str()) {
            TextOrder::Before => {
                at -= 1;
            },
            TextOrder::Same => {
                proof {
                    lemma_order_same(wanted, texts[at - 1]);
                    assert(texts.contains(wanted));
                }
                return;
            },
            TextOrder::After => {
                proof {
                    lemma_order_reversed(texts[at - 1], wanted);
                }
                break;
            },
        }
    }
    names.insert(at, name);
    proof {
        let after = crate::model::texts(names@);
        assert(after =~= texts.insert(at as int, wanted));
        assert forall|i: int, j: int| 0 <= i < j < after.len() implies before(
            #[trigger] after[i],
            #[trigger] after[j],
        ) by {
            if j == at && i < at - 1 {
                lemma_order_transitive(texts[i], texts[at - 1], wanted);
            }
            if i == at {
                assert(after[j] == texts[j - 1]);
            }
            if i < at && j > at {
                assert(after[j] == texts[j - 1]);
            }
        }
        assert forall|x: Seq<char>| #[trigger] after.contains(x) <==> texts.contains(x) || x
            == wanted by {
            if after.contains(x) {
                let i = choose|i: int| 0 <= i < after.len() && after[i] == x;
                if i < at {
                    assert(texts[i] == x);
                } else if i > at {
                    assert(texts[i - 1] == x);
                }
            }
            if texts.contains(x) {
                let i = choose|i: int| 0 <= i < texts.len() && texts[i] == x;
                if i < at {
                    assert(after[i] == x);
                } else {
                    assert(after[i + 1] == x);
                }
            }
            assert(after[at as int] == wanted);
        }
    }
}

/// The names of a list, ascending, each once.
pub fn sorted_names(names: &[String]) -> (r: Vec<String>)
    ensures
        ascending(crate::model::texts(r@)),
        same_names(crate::model::texts(r@), crate::model::texts(names@)),
{
    let ghost texts = crate::model::texts(names@);
    let mut out: Vec<String> = Vec::new();
    let mut index: usize = 0;
    while index < names.len()
        invariant
            index <= names@.len(),
            texts == crate::model::texts(names@),
            ascending(crate::model::texts(out@)),
            same_names(crate::model::texts(out@), texts.take(index as int)),
        decreases names.len() - index,
    {
        let ghost kept = crate::model::texts(out@);
        put_name(&mut out, names[index].clone());
        proof {
            let next = texts.take(index + 1);
            let now = crate::model::texts(out@);
            assert forall|name: Seq<char>| #[trigger] now.contains(name) <==> next.contains(name) by {
                if texts.take(index as int).contains(name) {
                    let i = choose|i: int|
                        0 <= i < texts.take(index as int).len() && texts.take(index as int)[i] == name;
                    assert(next[i] == name);
                }
                assert(next[index as int] == texts[index as int]);
                if next.contains(name) && name != texts[index as int] {
                    let i = choose|i: int| 0 <= i < next.len() && next[i] == name;
                    assert(texts.take(index as int)[i] == name);
                }
                assert(kept.contains(name) <==> texts.take(index as int).contains(name));
            }
        }
        index += 1;
    }
    assert(texts.take(index as int) =~= texts);
    out
}

/// Whether two ascending lists hold the same names.
pub(crate) fn equal_names(a: &[String], b: &[String]) -> (r: bool)
    requires
        ascending(crate::model::texts(a@)),
        ascending(crate::model::texts(b@)),
    ensures
        r == same_names(crate::model::texts(a@), crate::model::texts(b@)),
{
    let ghost left = crate::model::texts(a@);
    let ghost right = crate::model::texts(b@);
    if a.len() != b.len() {
        proof {
            if same_names(left, right) {
                lemma_ascending_unique(left, right);
            }
        }
        return false;
    }
    let mut index: usize = 0;
    while index < a.len()
        invariant
            index <= a@.len(),
            a@.len() == b@.len(),
            ascending(left),
            ascending(right),
            left == crate::model::texts(a@),
            right == crate::model::texts(b@),
            forall|i: int| 0 <= i < index ==> #[trigger] left[i] == right[i],
        decreases a.len() - index,
    {
        if a[index] != b[index] {
            proof {
                assert(left[index as int] != right[index as int]);
                if same_names(left, right) {
                    lemma_ascending_unique(left, right);
                }
            }
            return false;
        }
        index += 1;
    }
    assert(left =~= right);
    true
}

} // verus!
