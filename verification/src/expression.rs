//! Expression fragments: the unit each builder operation produces, made of
//! an expression snippet plus the name/value placeholder entries it
//! introduces, with a monotone generator for value-placeholder ids.

use vstd::prelude::*;
use vstd::string::*;
use crate::assoc::AssocMap;
use crate::numerals::{dec_digits, decimal_string, lemma_dec_digits_injective};
use crate::values::{AttrValueView, AttributeNames, AttributeValue, AttributeValues};

verus! {

/// The name placeholder `#name` standing for the real field name `name`.
pub open spec fn name_placeholder(name: Seq<char>) -> Seq<char> {
    "#"@ + name
}

/// The value placeholder `:valueN` for the generated id `N`.
pub open spec fn value_placeholder(id: nat) -> Seq<char> {
    ":value"@ + dec_digits(id)
}

/// Law: value placeholders of distinct generated ids never collide, so
/// fragments built from fresh ids have pairwise disjoint value maps.
pub proof fn lemma_value_placeholder_injective(a: nat, b: nat)
    requires
        a != b,
    ensures
        value_placeholder(a) != value_placeholder(b),
{
    let p = ":value"@;
    if value_placeholder(a) == value_placeholder(b) {
        assert(dec_digits(a) =~= (p + dec_digits(a)).subrange(
            p.len() as int,
            (p + dec_digits(a)).len() as int,
        ));
        assert(dec_digits(b) =~= (p + dec_digits(b)).subrange(
            p.len() as int,
            (p + dec_digits(b)).len() as int,
        ));
        lemma_dec_digits_injective(a, b);
    }
}

/// Law: fragments built under distinct generated ids carry disjoint value
/// maps, so merging them into one compiled request loses no entry.
pub proof fn lemma_distinct_ids_disjoint_values(
    a: nat,
    b: nat,
    va: AttrValueView,
    vb: AttrValueView,
)
    requires
        a != b,
    ensures
        Map::<Seq<char>, AttrValueView>::empty().insert(value_placeholder(a), va).dom().disjoint(
            Map::<Seq<char>, AttrValueView>::empty().insert(value_placeholder(b), vb).dom(),
        ),
{
    lemma_value_placeholder_injective(a, b);
    assert forall|k: Seq<char>|
        Map::<Seq<char>, AttrValueView>::empty().insert(value_placeholder(a), va).dom().contains(
            k,
        ) implies !Map::<Seq<char>, AttrValueView>::empty().insert(
        value_placeholder(b),
        vb,
    ).dom().contains(k) by {
        assert(k == value_placeholder(a));
    }
}

/// Generates value-placeholder ids: a monotone counter, so no two fragments
/// of one request share an id.
pub struct ValueIdGenerator {
    next: u64,
}

impl ValueIdGenerator {
    /// The id the next call will return.
    pub closed spec fn spec_next(&self) -> nat {
        self.next as nat
    }

    /// A fresh counter starting at zero.
    pub fn new() -> (r: Self)
        ensures
            r.spec_next() == 0,
    {
        ValueIdGenerator { next: 0 }
    }

    /// Returns a fresh id; every later call returns a strictly larger one.
    pub fn generate(&mut self) -> (id: u64)
        requires
            old(self).spec_next() < u64::MAX,
        ensures
            id as nat == old(self).spec_next(),
            final(self).spec_next() == old(self).spec_next() + 1,
    {
        let id = self.next;
        self.next = self.next + 1;
        id
    }
}

/// One builder operation's output: an expression snippet plus the name and
/// value substitution entries it introduced.
pub struct ExpressionFragment {
    pub expression: String,
    pub names: AttributeNames,
    pub values: AttributeValues,
}

/// The string `#attr`.
fn name_placeholder_string(attr: &str) -> (r: String)
    ensures
        r@ == name_placeholder(attr@),
{
    let mut s = String::from_str("#");
    s.append(attr);
    s
}

/// The string `:valueN` for the id `n`.
fn value_placeholder_string(id: u64) -> (r: String)
    ensures
        r@ == value_placeholder(id as nat),
{
    let mut s = String::from_str(":value");
    let d = decimal_string(id);
    s.append(d.as_str());
    s
}

/// The fragment `#attr = :valueN` of `set(attr, value)`, under a freshly
/// generated value id.
pub fn set_fragment(attr: &str, value: AttributeValue, generator: &mut ValueIdGenerator) -> (f:
    ExpressionFragment)
    requires
        old(generator).spec_next() < u64::MAX,
    ensures
        f.expression@ == name_placeholder(attr@) + " = "@ + value_placeholder(
            old(generator).spec_next(),
        ),
        f.names@ == Map::<Seq<char>, Seq<char>>::empty().insert(name_placeholder(attr@), attr@),
        f.values@ == Map::<Seq<char>, AttrValueView>::empty().insert(
            value_placeholder(old(generator).spec_next()),
            value@,
        ),
        final(generator).spec_next() == old(generator).spec_next() + 1,
{
    let id = generator.generate();
    let np = name_placeholder_string(attr);
    let vp = value_placeholder_string(id);
    let mut expression = np.clone();
    expression.append(" = ");
    expression.append(vp.as_str());
    let mut names = AssocMap::new();
    names.insert(np, attr.to_owned());
    let mut values = AssocMap::new();
    values.insert(vp, value);
    ExpressionFragment { expression, names, values }
}

/// The fragment `#attr :valueN` of `add(attr, value)`, under a freshly
/// generated value id.
pub fn add_fragment(attr: &str, value: AttributeValue, generator: &mut ValueIdGenerator) -> (f:
    ExpressionFragment)
    requires
        old(generator).spec_next() < u64::MAX,
    ensures
        f.expression@ == name_placeholder(attr@) + " "@ + value_placeholder(
            old(generator).spec_next(),
        ),
        f.names@ == Map::<Seq<char>, Seq<char>>::empty().insert(name_placeholder(attr@), attr@),
        f.values@ == Map::<Seq<char>, AttrValueView>::empty().insert(
            value_placeholder(old(generator).spec_next()),
            value@,
        ),
        final(generator).spec_next() == old(generator).spec_next() + 1,
{
    let id = generator.generate();
    let np = name_placeholder_string(attr);
    let vp = value_placeholder_string(id);
    let mut expression = np.clone();
    expression.append(" ");
    expression.append(vp.as_str());
    let mut names = AssocMap::new();
    names.insert(np, attr.to_owned());
    let mut values = AssocMap::new();
    values.insert(vp, value);
    ExpressionFragment { expression, names, values }
}

/// The fragment `#attr :valueN` of `delete(attr, value)`, removing elements
/// from a set-typed attribute, under a freshly generated value id.
pub fn delete_fragment(attr: &str, value: AttributeValue, generator: &mut ValueIdGenerator) -> (f:
    ExpressionFragment)
    requires
        old(generator).spec_next() < u64::MAX,
    ensures
        f.expression@ == name_placeholder(attr@) + " "@ + value_placeholder(
            old(generator).spec_next(),
        ),
        f.names@ == Map::<Seq<char>, Seq<char>>::empty().insert(name_placeholder(attr@), attr@),
        f.values@ == Map::<Seq<char>, AttrValueView>::empty().insert(
            value_placeholder(old(generator).spec_next()),
            value@,
        ),
        final(generator).spec_next() == old(generator).spec_next() + 1,
{
    add_fragment(attr, value, generator)
}

/// The fragment `#attr` of `remove(attr)`; it carries no value placeholder.
pub fn remove_fragment(attr: &str) -> (f: ExpressionFragment)
    ensures
        f.expression@ == name_placeholder(attr@),
        f.names@ == Map::<Seq<char>, Seq<char>>::empty().insert(name_placeholder(attr@), attr@),
        f.values@ == Map::<Seq<char>, AttrValueView>::empty(),
{
    let np = name_placeholder_string(attr);
    let expression = np.clone();
    let mut names = AssocMap::new();
    names.insert(np, attr.to_owned());
    let values = AssocMap::new();
    ExpressionFragment { expression, names, values }
}

} // verus!
