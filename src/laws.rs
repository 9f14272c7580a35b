//! Properties of badge decoding that relate inputs and calls.

use crate::attributes::{keys_distinct, string_map_of};
use crate::badges::{
    all_text, build_spec, classify_spec, declared, decode_spec, field_value_spec, known_tag_spec,
    optional_spec, required_spec, row_spec, schema_spec, slot, status_spec, strict_values_spec,
    text_of, text_pairs, typed_spec, BadgeView, Entries, FieldSpec, KnownTag,
};
use crate::crates::CrateId;
use crate::error::Error;
use vstd::prelude::*;

verus! {

/// Whether a declared attribute is given with a text value, in either spelling.
pub open spec fn given_as_text(f: FieldSpec, e: Entries) -> bool {
    (slot(e, f.name) matches Some(Some(_))) || match f.alias {
        Some(al) => slot(e, al) matches Some(Some(_)),
        None => false,
    }
}

/// Whether a declared attribute is given in both of its spellings.
pub open spec fn given_twice(f: FieldSpec, e: Entries) -> bool {
    slot(e, f.name) is Some && match f.alias {
        Some(al) => slot(e, al) is Some,
        None => false,
    }
}

/// Whether a declared attribute is absent in both spellings.
pub open spec fn absent(f: FieldSpec, e: Entries) -> bool {
    slot(e, f.name) is None && match f.alias {
        Some(al) => slot(e, al) is None,
        None => true,
    }
}

/// Whether the attributes give a status that is no known token.
pub open spec fn unknown_status(e: Entries) -> bool {
    match slot(e, "status"@) {
        Some(Some(t)) => status_spec(t) is None,
        _ => false,
    }
}

/// Whether attributes have exactly a kind's shape: only declared names, every
/// required attribute given as a text, none in both spellings.
pub open spec fn shape_fits(f: Seq<FieldSpec>, e: Entries) -> bool {
    &&& forall|i: int| 0 <= i < e.len() ==> declared(f, #[trigger] e[i].0)
    &&& forall|j: int| 0 <= j < f.len() && (#[trigger] f[j]).required ==> given_as_text(f[j], e)
    &&& forall|j: int| 0 <= j < f.len() ==> !given_twice(#[trigger] f[j], e)
}

/// Whether a badge is the one that keeps tag and attributes as they are.
pub open spec fn is_other(b: BadgeView) -> bool {
    b is Other
}

/// A known tag whose attributes have exactly its kind's shape (and, for a
/// maintenance badge, a known status token) decodes to that kind's own
/// variant, with each declared attribute set to the value given, or `None`
/// where an optional one is absent or `null`; never to `Other`.
pub proof fn lemma_known_shape_decodes_typed(tag: Seq<char>, e: Entries, k: KnownTag)
    requires
        known_tag_spec(tag) == Some(k),
        shape_fits(schema_spec(k), e),
        k == KnownTag::Maintenance ==> status_spec(text_of(slot(e, "status"@)->0)) is Some,
    ensures
        classify_spec(tag, e) == build_spec(
            k,
            Seq::new(schema_spec(k).len(), |j: int| field_value_spec(schema_spec(k)[j], e)->0),
        ),
        classify_spec(tag, e) matches Some(b) && !is_other(b),
{
    let f = schema_spec(k);
    assert forall|j: int| 0 <= j < f.len() implies #[trigger] field_value_spec(f[j], e) is Some by {
        assert(!given_twice(f[j], e));
        if f[j].required {
            assert(given_as_text(f[j], e));
        }
    }
    assert(strict_values_spec(f, e) is Some);
    if k == KnownTag::Maintenance {
        assert(f[0] == FieldSpec { name: "status"@, alias: None, required: true });
        assert(field_value_spec(f[0], e) is Some);
    }
}

/// A known tag whose attributes miss a required attribute, hold an undeclared
/// name, or (for a maintenance badge) hold an unknown status token decodes to
/// `Other` with the tag and the attributes as they are, where every attribute
/// is a text; never to an error.
pub proof fn lemma_known_misfit_falls_back(tag: Seq<char>, e: Entries, k: KnownTag)
    requires
        known_tag_spec(tag) == Some(k),
        all_text(e),
        (exists|j: int|
            0 <= j < schema_spec(k).len() && (#[trigger] schema_spec(k)[j]).required && absent(
                schema_spec(k)[j],
                e,
            )) || (exists|i: int| 0 <= i < e.len() && !declared(schema_spec(k), #[trigger] e[i].0))
            || (k == KnownTag::Maintenance && unknown_status(e)),
    ensures
        classify_spec(tag, e) == Some(BadgeView::Other { badge_type: tag, attributes: text_pairs(e) }),
{
    let f = schema_spec(k);
    if exists|j: int| 0 <= j < f.len() && (#[trigger] f[j]).required && absent(f[j], e) {
        let j = choose|j: int| 0 <= j < f.len() && (#[trigger] f[j]).required && absent(f[j], e);
        assert(field_value_spec(f[j], e) is None);
    }
    if k == KnownTag::Maintenance && strict_values_spec(f, e) is Some {
        assert(f[0] == FieldSpec { name: "status"@, alias: None, required: true });
        assert(field_value_spec(f[0], e) is Some);
    }
    assert(typed_spec(tag, e) is None);
}

/// An unknown tag decodes to `Other` with the tag and the attributes as they
/// are, where every attribute is a text.
pub proof fn lemma_unknown_tag_falls_back(tag: Seq<char>, e: Entries)
    requires
        known_tag_spec(tag) is None,
        all_text(e),
    ensures
        classify_spec(tag, e) == Some(BadgeView::Other { badge_type: tag, attributes: text_pairs(e) }),
{
}

/// A blob that is not a mapping from names to strings or `null` fails to
/// decode, whatever the tag.
pub proof fn lemma_unmapped_blob_fails(tag: Seq<char>, blob: Seq<char>)
    requires
        string_map_of(blob) is None,
    ensures
        decode_spec(tag, blob) is None,
{
}

/// Decoding a raw record twice gives equal rows: both are the one value that
/// the record decodes to.
pub proof fn lemma_decode_repeatable(
    headers: Seq<Seq<char>>,
    fields: Seq<Seq<char>>,
    first: (CrateId, BadgeView),
    second: (CrateId, BadgeView),
)
    requires
        row_spec(headers, fields) == Ok::<(CrateId, BadgeView), Error>(first),
        row_spec(headers, fields) == Ok::<(CrateId, BadgeView), Error>(second),
    ensures
        first == second,
{
}

/// With each name once, looking a name up finds the attribute of that name,
/// and finds nothing where no attribute has it.
proof fn lemma_slot_distinct(e: Entries, k: Seq<char>)
    requires
        keys_distinct(e),
    ensures
        forall|t: int| 0 <= t < e.len() && (#[trigger] e[t]).0 == k ==> slot(e, k) == Some(e[t].1),
        (forall|t: int| 0 <= t < e.len() ==> (#[trigger] e[t]).0 != k) ==> slot(e, k) is None,
    decreases e.len(),
{
    if e.len() > 0 {
        let d = e.drop_last();
        assert forall|i: int, j: int| 0 <= i < j < d.len() implies #[trigger] d[i].0 != #[trigger] d[j].0 by {
            assert(d[i] == e[i] && d[j] == e[j]);
        }
        lemma_slot_distinct(d, k);
        assert forall|t: int| 0 <= t < e.len() && (#[trigger] e[t]).0 == k implies slot(e, k) == Some(
            e[t].1,
        ) by {
            if t < e.len() - 1 {
                assert(e[t].0 != e[e.len() - 1].0);
                assert(d[t] == e[t]);
            }
        }
        if forall|t: int| 0 <= t < e.len() ==> (#[trigger] e[t]).0 != k {
            assert forall|t: int| 0 <= t < d.len() implies (#[trigger] d[t]).0 != k by {
                assert(d[t] == e[t]);
            }
            assert(e[e.len() - 1].0 != k);
        }
    }
}

/// Renaming one attribute changes what the old and the new name find, and
/// nothing else.
proof fn lemma_slot_renamed(e: Entries, i: int, al: Seq<char>, x: Seq<char>)
    requires
        keys_distinct(e),
        0 <= i < e.len(),
        forall|t: int| 0 <= t < e.len() ==> (#[trigger] e[t]).0 != al,
    ensures
        keys_distinct(e.update(i, (al, e[i].1))),
        slot(e.update(i, (al, e[i].1)), al) == Some(e[i].1),
        slot(e.update(i, (al, e[i].1)), e[i].0) is None,
        slot(e, e[i].0) == Some(e[i].1),
        slot(e, al) is None,
        x != al && x != e[i].0 ==> slot(e.update(i, (al, e[i].1)), x) == slot(e, x),
{
    let e2 = e.update(i, (al, e[i].1));
    assert forall|a: int, b: int| 0 <= a < b < e2.len() implies #[trigger] e2[a].0 != #[trigger] e2[b].0 by {
        if a != i && b != i {
            assert(e[a].0 != e[b].0);
        } else if a == i {
            assert(e[b].0 != al);
        } else {
            assert(e[a].0 != al);
        }
    }
    lemma_slot_distinct(e, al);
    lemma_slot_distinct(e2, al);
    assert(e2[i].0 == al);
    lemma_slot_distinct(e, e[i].0);
    lemma_slot_distinct(e2, e[i].0);
    assert forall|t: int| 0 <= t < e2.len() implies (#[trigger] e2[t]).0 != e[i].0 by {
        if t != i {
            assert(e[t].0 != e[i].0);
        }
    }
    if x != al && x != e[i].0 {
        lemma_slot_distinct(e, x);
        lemma_slot_distinct(e2, x);
        if exists|t: int| 0 <= t < e.len() && (#[trigger] e[t]).0 == x {
            let t = choose|t: int| 0 <= t < e.len() && (#[trigger] e[t]).0 == x;
            assert(e2[t] == e[t]);
        } else {
            assert forall|t: int| 0 <= t < e2.len() implies (#[trigger] e2[t]).0 != x by {
                if t != i {
                    assert(e2[t] == e[t]);
                }
            }
        }
    }
}

/// The alternate spelling of an appveyor badge's `project_name`,
/// `project-name`, decodes to the same badge: renaming the one attribute
/// from one spelling to the other, where the other is not given, leaves the
/// typed decoding as it was, and so the decoded badge wherever the typed
/// decoding succeeds.
pub proof fn lemma_alias_spellings_agree(tag: Seq<char>, e: Entries, i: int)
    requires
        known_tag_spec(tag) == Some(KnownTag::Appveyor),
        keys_distinct(e),
        0 <= i < e.len(),
        e[i].0 == "project_name"@,
        forall|t: int| 0 <= t < e.len() ==> (#[trigger] e[t]).0 != "project-name"@,
    ensures
        typed_spec(tag, e.update(i, ("project-name"@, e[i].1))) == typed_spec(tag, e),
        typed_spec(tag, e) is Some ==> classify_spec(tag, e.update(i, ("project-name"@, e[i].1)))
            == classify_spec(tag, e),
{
    let al = "project-name"@;
    let e2 = e.update(i, (al, e[i].1));
    let f = schema_spec(KnownTag::Appveyor);
    reveal_strlit("repository");
    reveal_strlit("project_name");
    reveal_strlit("project-name");
    reveal_strlit("branch");
    reveal_strlit("service");
    reveal_strlit("id");
    assert("project_name"@[7] != "project-name"@[7]);
    lemma_slot_renamed(e, i, al, "repository"@);
    lemma_slot_renamed(e, i, al, "branch"@);
    lemma_slot_renamed(e, i, al, "service"@);
    lemma_slot_renamed(e, i, al, "id"@);
    assert forall|m: int| 0 <= m < f.len() implies #[trigger] field_value_spec(f[m], e2)
        == field_value_spec(f[m], e) by {
        if m == 0 {
            assert("repository"@.len() == 10);
            assert(f[0] == required_spec("repository"@));
        } else if m == 1 {
            assert(f[1].name == "project_name"@ && f[1].alias == Some(al));
        } else if m == 2 {
            assert("branch"@.len() == 6);
            assert(f[2] == optional_spec("branch"@));
        } else if m == 3 {
            assert("service"@.len() == 7);
            assert(f[3] == optional_spec("service"@));
        } else {
            assert("id"@.len() == 2);
            assert(f[4] == optional_spec("id"@));
        }
    }
    assert forall|t: int| #![trigger e2[t]] #![trigger e[t]]
        0 <= t < e.len() implies declared(f, e2[t].0) == declared(f, e[t].0) by {
        if t == i {
            assert(f[1].name == e[t].0 && f[1].alias == Some(e2[t].0));
        } else {
            assert(e2[t] == e[t]);
        }
    }
    assert(Seq::new(f.len(), |j: int| field_value_spec(f[j], e2)->0) =~= Seq::new(
        f.len(),
        |j: int| field_value_spec(f[j], e)->0,
    ));
    assert(e2.len() == e.len());
    assert((forall|t: int| 0 <= t < e2.len() ==> declared(f, #[trigger] e2[t].0)) == (forall|t: int|
        0 <= t < e.len() ==> declared(f, #[trigger] e[t].0)));
    assert((forall|j: int| 0 <= j < f.len() ==> #[trigger] field_value_spec(f[j], e2) is Some) == (
    forall|j: int| 0 <= j < f.len() ==> #[trigger] field_value_spec(f[j], e) is Some));
    assert(strict_values_spec(f, e2) == strict_values_spec(f, e));
}

} // verus!
