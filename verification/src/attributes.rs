//! Attribute lists: ordered key/value pairs and the text they are written as.
//!
//! Pairs keep the order in which they were added. Nothing is merged or
//! sorted, so a key that was added twice is written twice.

use vstd::prelude::*;

verus! {

/// The model of an attribute list: its pairs of key and value, in the order
/// in which they were added.
pub type Attributes = Seq<(Seq<char>, Seq<char>)>;

/// One attribute as it is written: the key, ` = `, and the value between
/// double quotes.
pub open spec fn pair_text(pair: (Seq<char>, Seq<char>)) -> Seq<char> {
    pair.0 + " = \""@ + pair.1 + "\""@
}

/// The pairs of `attrs` as they are written, in order, with nothing in
/// between.
pub open spec fn pairs_text(attrs: Attributes) -> Seq<char>
    decreases attrs.len(),
{
    if attrs.len() == 0 {
        Seq::empty()
    } else {
        pairs_text(attrs.drop_last()) + pair_text(attrs.last())
    }
}

/// The attribute list of an entity: nothing when there are no pairs, else the
/// pairs between square brackets.
pub open spec fn attributes_text(attrs: Attributes) -> Seq<char> {
    if attrs.len() == 0 {
        Seq::empty()
    } else {
        "["@ + pairs_text(attrs) + "]"@
    }
}

/// The attribute list of a default-attribute line: nothing when there are no
/// pairs, else the category, a space and the bracketed list.
pub open spec fn prefixed_attributes_text(prefix: Seq<char>, attrs: Attributes) -> Seq<char> {
    if attrs.len() == 0 {
        Seq::empty()
    } else {
        prefix + " "@ + attributes_text(attrs)
    }
}

/// Renders an attribute list.
pub fn stringify_attributes(attributes: &Vec<(String, String)>) -> (out: String)
    ensures
        out@ == attributes_text(attributes.deep_view()),
{
    if attributes.len() == 0 {
        return String::new();
    }
    let ghost attrs = attributes.deep_view();
    let mut out = String::from_str("[");
    for i in 0..attributes.len()
        invariant
            attrs == attributes.deep_view(),
            out@ == "["@ + pairs_text(attrs.take(i as int)),
    {
        proof {
            assert(attrs.take(i + 1).drop_last() =~= attrs.take(i as int));
        }
        out.append(attributes[i].0.as_str());
        out.append(" = \"");
        out.append(attributes[i].1.as_str());
        out.append("\"");
    }
    assert(attrs.take(attributes.len() as int) =~= attrs);
    out.append("]");
    out
}

/// Renders the attribute list of a default-attribute line for the category
/// `prefix`.
pub fn stringify_attributes_with_prefix(prefix: &str, attributes: &Vec<(String, String)>) -> (out:
    String)
    ensures
        out@ == prefixed_attributes_text(prefix@, attributes.deep_view()),
{
    if attributes.len() == 0 {
        return String::new();
    }
    let mut out = String::from_str(prefix);
    out.append(" ");
    let list = stringify_attributes(attributes);
    out.append(list.as_str());
    out
}

/// Adding a pair at the end of a list adds its text at the end of the pairs'
/// text: what was written before stays as it was.
pub proof fn lemma_pairs_text_push(attrs: Attributes, pair: (Seq<char>, Seq<char>))
    ensures
        pairs_text(attrs.push(pair)) == pairs_text(attrs) + pair_text(pair),
{
    assert(attrs.push(pair).drop_last() =~= attrs);
}

/// A list without pairs is written as nothing, with or without a category
/// before it.
pub proof fn lemma_empty_attributes_text(prefix: Seq<char>, attrs: Attributes)
    requires
        attrs.len() == 0,
    ensures
        attributes_text(attrs) == Seq::<char>::empty(),
        prefixed_attributes_text(prefix, attrs) == Seq::<char>::empty(),
{
}

/// A list with at least one pair is written between `[` and `]`.
pub proof fn lemma_attributes_text_is_bracketed(attrs: Attributes)
    requires
        attrs.len() > 0,
    ensures
        attributes_text(attrs).len() >= 2,
        attributes_text(attrs).first() == '[',
        attributes_text(attrs).last() == ']',
{
    reveal_strlit("[");
    reveal_strlit("]");
}

/// A list of two pairs is written as `[`, the first pair, the second pair
/// and `]`, each pair as its key, ` = ` and its quoted value.
pub proof fn lemma_two_attributes_text(
    key1: Seq<char>,
    value1: Seq<char>,
    key2: Seq<char>,
    value2: Seq<char>,
)
    ensures
        attributes_text(seq![(key1, value1), (key2, value2)]) == "["@ + (key1 + " = \""@ + value1
            + "\""@) + (key2 + " = \""@ + value2 + "\""@) + "]"@,
{
    let both = seq![(key1, value1), (key2, value2)];
    let one = seq![(key1, value1)];
    assert(both.drop_last() =~= one);
    assert(pairs_text(one.drop_last()) =~= Seq::<char>::empty());
    assert(pairs_text(one) =~= pair_text((key1, value1)));
}

} // verus!
