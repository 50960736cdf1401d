//! Laws of the listing parser and of identifiers, proved over their models.
use vstd::prelude::*;
use crate::lexicon::lexicon_canonical;
use crate::target::{
    entries_of, excluded_word, installed_marker, line_body, line_entry, line_excluded,
    line_installed, lines, parsed_listing, rendered, triple_model, EntryModel, TripleModel,
};
use crate::text::{contains, occurs_at};

verus! {

/// How many of the lines `ls` give an entry.
pub open spec fn kept_count(ls: Seq<Seq<char>>) -> nat
    decreases ls.len(),
{
    if ls.len() == 0 {
        0
    } else {
        kept_count(ls.drop_last()) + if line_excluded(ls.last()) {
            0nat
        } else {
            1nat
        }
    }
}

/// How many of the lines `ls` give an entry and carry the installed marker.
pub open spec fn kept_installed_count(ls: Seq<Seq<char>>) -> nat
    decreases ls.len(),
{
    if ls.len() == 0 {
        0
    } else {
        kept_installed_count(ls.drop_last()) + if !line_excluded(ls.last()) && line_installed(
            ls.last(),
        ) {
            1nat
        } else {
            0nat
        }
    }
}

/// How many of the entries `es` are installed.
pub open spec fn installed_count(es: Seq<EntryModel>) -> nat
    decreases es.len(),
{
    if es.len() == 0 {
        0
    } else {
        installed_count(es.drop_last()) + if es.last().installed {
            1nat
        } else {
            0nat
        }
    }
}

/// Rendering an identifier that was read from a text, and reading the result
/// again, gives the same identifier, provided that target-lexicon reads the
/// canonical text of a triple back as itself.
pub proof fn lemma_round_trip(s: Seq<char>)
    requires
        triple_model(s) matches TripleModel::Coined(c) ==> lexicon_canonical(c) == Some(c),
    ensures
        triple_model(rendered(triple_model(s))) == triple_model(s),
{
}

/// The lines `ls` give one entry for each line that is not left out, and one
/// installed entry for each of those that carries the installed marker.
pub proof fn lemma_entry_counts(ls: Seq<Seq<char>>)
    ensures
        entries_of(ls).len() == kept_count(ls),
        installed_count(entries_of(ls)) == kept_installed_count(ls),
    decreases ls.len(),
{
    if ls.len() > 0 {
        lemma_entry_counts(ls.drop_last());
        let prev = entries_of(ls.drop_last());
        if let Some(e) = line_entry(ls.last()) {
            assert(prev.push(e).drop_last() =~= prev);
        }
    }
}

/// A listing gives one entry for each of its lines that is not left out, and
/// one installed entry for each of those that ends in ` (installed)`.
pub proof fn lemma_listing_counts(s: Seq<char>)
    ensures
        parsed_listing(s).len() == kept_count(lines(s)),
        installed_count(parsed_listing(s)) == kept_installed_count(lines(s)),
{
    lemma_entry_counts(lines(s));
}

/// Where no line is left out, the entries follow the lines one for one, in
/// their order, each installed exactly where its line carries the marker.
pub proof fn lemma_entries_follow_lines(ls: Seq<Seq<char>>)
    requires
        forall|k: int| 0 <= k < ls.len() ==> !line_excluded(#[trigger] ls[k]),
    ensures
        entries_of(ls).len() == ls.len(),
        forall|k: int|
            0 <= k < ls.len() ==> #[trigger] entries_of(ls)[k] == (EntryModel {
                triple: triple_model(line_body(ls[k])),
                installed: line_installed(ls[k]),
            }),
    decreases ls.len(),
{
    if ls.len() > 0 {
        let init = ls.drop_last();
        assert forall|k: int| 0 <= k < init.len() implies !line_excluded(#[trigger] init[k]) by {
            assert(init[k] == ls[k]);
        }
        lemma_entries_follow_lines(init);
        assert(!line_excluded(ls[ls.len() - 1]));
        assert forall|k: int| 0 <= k < ls.len() implies #[trigger] entries_of(ls)[k] == (
        EntryModel { triple: triple_model(line_body(ls[k])), installed: line_installed(ls[k]) }) by {
            if k < init.len() {
                assert(init[k] == ls[k]);
            }
        }
    }
}

/// A line that holds `preview` gives no entry, whether or not it ends in the
/// installed marker.
pub proof fn lemma_preview_line_dropped(l: Seq<char>)
    requires
        contains(l, excluded_word()),
    ensures
        line_entry(l) is None,
{
    reveal_strlit("preview");
    reveal_strlit(" (installed)");
    let w = excluded_word();
    let i = choose|i: int| occurs_at(l, w, i);
    if line_installed(l) {
        let p = l.len() - installed_marker().len();
        let b = line_body(l);
        assert(l.subrange(p, l.len() as int) == installed_marker());
        assert(l[p] == ' ') by {
            assert(l.subrange(p, l.len() as int)[0] == l[p]);
        }
        assert(l[i] == 'p') by {
            assert(l.subrange(i, i + w.len())[0] == l[i]);
        }
        if i >= p {
            let k = i - p;
            assert(l.subrange(p, l.len() as int)[k] == l[i]);
            assert(installed_marker()[k] != 'p');
            assert(false);
        } else if p < i + w.len() {
            let k = p - i;
            assert(l.subrange(i, i + w.len())[k] == l[p]);
            assert(w[k] != ' ');
            assert(false);
        }
        assert(b.subrange(i, i + w.len()) =~= l.subrange(i, i + w.len()));
        assert(occurs_at(b, w, i));
    } else {
        assert(occurs_at(line_body(l), w, i));
    }
}

/// Taking a line that is left out away from the lines of a listing does not
/// change its entries.
pub proof fn lemma_excluded_line_removed(ls1: Seq<Seq<char>>, l: Seq<char>, ls2: Seq<Seq<char>>)
    requires
        line_excluded(l),
    ensures
        entries_of(ls1.push(l) + ls2) == entries_of(ls1 + ls2),
    decreases ls2.len(),
{
    if ls2.len() == 0 {
        assert(ls1.push(l) + ls2 =~= ls1.push(l));
        assert(ls1 + ls2 =~= ls1);
        assert(ls1.push(l).drop_last() =~= ls1);
    } else {
        let init = ls2.drop_last();
        lemma_excluded_line_removed(ls1, l, init);
        assert((ls1.push(l) + ls2).drop_last() =~= ls1.push(l) + init);
        assert((ls1 + ls2).drop_last() =~= ls1 + init);
        assert((ls1.push(l) + ls2).last() == ls2.last());
        assert((ls1 + ls2).last() == ls2.last());
    }
}

/// Each identifier of the entries of `ls` is one read from some text.
proof fn lemma_entries_are_read(ls: Seq<Seq<char>>)
    ensures
        forall|k: int|
            0 <= k < entries_of(ls).len() ==> exists|b: Seq<char>|
                #[trigger] entries_of(ls)[k].triple == triple_model(b),
    decreases ls.len(),
{
    if ls.len() > 0 {
        lemma_entries_are_read(ls.drop_last());
        let prev = entries_of(ls.drop_last());
        assert forall|k: int| 0 <= k < entries_of(ls).len() implies exists|b: Seq<char>|
            #[trigger] entries_of(ls)[k].triple == triple_model(b) by {
            if k < prev.len() {
                assert(entries_of(ls)[k] == prev[k]);
            } else {
                assert(entries_of(ls)[k].triple == triple_model(line_body(ls.last())));
            }
        }
    }
}

/// Rendering the identifier of an entry of a listing, and reading the result
/// again, gives the same identifier, provided that target-lexicon reads the
/// canonical text of a triple back as itself.
pub proof fn lemma_listing_round_trip(s: Seq<char>, k: int)
    requires
        0 <= k < parsed_listing(s).len(),
        parsed_listing(s)[k].triple matches TripleModel::Coined(c) ==> lexicon_canonical(c) == Some(
            c,
        ),
    ensures
        triple_model(rendered(parsed_listing(s)[k].triple)) == parsed_listing(s)[k].triple,
{
    lemma_entries_are_read(lines(s));
    let b = choose|b: Seq<char>| #[trigger] parsed_listing(s)[k].triple == triple_model(b);
    lemma_round_trip(b);
}

} // verus!
