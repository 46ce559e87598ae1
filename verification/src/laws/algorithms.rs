//! The algorithms of SSH, as the user orders them.

use vstd::prelude::*;

use crate::text;
use crate::text::seq_view;
use crate::workspace::ssh_algorithms::{
    available_algorithms, baseline_algorithms, category_i18n_key, customized_category_count,
    law_reordering_keeps_the_algorithms, offer_algorithms, place_of, preference_algorithms, reorder_algorithm, without, AlgorithmMenu,
    CategoryRow, EditorKey, SshAlgorithmCategory, SshAlgorithmEditor, SshAlgorithmOffer,
    SshAlgorithmPreferences, SshCapabilityReport,
};

verus! {

/// Each category has its own list, of what is offered and of what is preferred.
pub proof fn law_categories_have_their_own_lists(
    offer: &SshAlgorithmOffer,
    preferences: &SshAlgorithmPreferences,
    category: SshAlgorithmCategory,
    offered: &Vec<String>,
    preferred: &Vec<String>,
)
    requires
        call_ensures(offer_algorithms, (offer, category), offered),
        call_ensures(preference_algorithms, (preferences, category), preferred),
    ensures
        category == SshAlgorithmCategory::Kex ==> seq_view(offered@) == seq_view(offer.kex@)
            && seq_view(preferred@) == seq_view(preferences.kex@),
        category == SshAlgorithmCategory::HostKey ==> seq_view(offered@) == seq_view(
            offer.host_key_algorithms@,
        ) && seq_view(preferred@) == seq_view(preferences.host_key@),
        category == SshAlgorithmCategory::Cipher ==> seq_view(offered@) == seq_view(offer.ciphers@)
            && seq_view(preferred@) == seq_view(preferences.cipher@),
        category == SshAlgorithmCategory::Mac ==> seq_view(offered@) == seq_view(offer.macs@)
            && seq_view(preferred@) == seq_view(preferences.mac@),
        category == SshAlgorithmCategory::Compression ==> seq_view(offered@) == seq_view(
            offer.compression@,
        ) && seq_view(preferred@) == seq_view(preferences.compression@),
{
}

/// Each category has its words.
pub proof fn law_categories_have_words(category: SshAlgorithmCategory, res: &'static str)
    requires
        call_ensures(category_i18n_key, (category,), res),
    ensures
        category == SshAlgorithmCategory::Kex ==> res@ == "ssh.form.ssh_algorithms_category_kex"@,
        category == SshAlgorithmCategory::HostKey ==> res@
            == "ssh.form.ssh_algorithms_category_host_key"@,
        category == SshAlgorithmCategory::Cipher ==> res@
            == "ssh.form.ssh_algorithms_category_cipher"@,
        category == SshAlgorithmCategory::Mac ==> res@ == "ssh.form.ssh_algorithms_category_mac"@,
        category == SshAlgorithmCategory::Compression ==> res@
            == "ssh.form.ssh_algorithms_category_compression"@,
{
}

/// A category counts as customised where the user's list of it is not empty.
pub proof fn law_customised_categories_are_counted(preferences: &SshAlgorithmPreferences, res: usize)
    requires
        call_ensures(customized_category_count, (preferences,), res),
    ensures
        res <= 5,
        res == 0 <==> preferences.kex@.len() == 0 && preferences.host_key@.len() == 0
            && preferences.cipher@.len() == 0 && preferences.mac@.len() == 0
            && preferences.compression@.len() == 0,
        res == 5 <==> preferences.kex@.len() > 0 && preferences.host_key@.len() > 0
            && preferences.cipher@.len() > 0 && preferences.mac@.len() > 0
            && preferences.compression@.len() > 0,
        preferences.kex@.len() > 0 && preferences.host_key@.len() == 0 && preferences.cipher@.len()
            == 0 && preferences.mac@.len() == 0 && preferences.compression@.len() == 0 ==> res == 1,
{
}

/// Without a list of the user's the one of the client counts: the legacy one where that is wanted.
pub proof fn law_the_preset_goes_by_compatibility(
    report: &SshCapabilityReport,
    legacy: bool,
    res: Vec<String>,
    expected: &Vec<String>,
    category: SshAlgorithmCategory,
)
    requires
        call_ensures(baseline_algorithms, (report, legacy, category), res),
        legacy ==> call_ensures(
            offer_algorithms,
            (&report.legacy_compatibility_offer, category),
            expected,
        ),
        !legacy ==> call_ensures(offer_algorithms, (&report.default_offer, category), expected),
    ensures
        seq_view(res@) == seq_view(expected@),
{
}

/// What is offered and not enabled is available, once.
pub proof fn law_available_is_what_is_not_enabled(
    report: &SshCapabilityReport,
    category: SshAlgorithmCategory,
    enabled: &Vec<String>,
    res: Vec<String>,
    legacy: &Vec<String>,
    standard: &Vec<String>,
    name: Seq<char>,
)
    requires
        call_ensures(available_algorithms, (report, category, enabled), res),
        call_ensures(offer_algorithms, (&report.legacy_compatibility_offer, category), legacy),
        call_ensures(offer_algorithms, (&report.default_offer, category), standard),
    ensures
        seq_view(res@).contains(name) <==> (seq_view(legacy@).contains(name) || seq_view(
            standard@,
        ).contains(name)) && !seq_view(enabled@).contains(name),
        seq_view(res@).no_duplicates(),
{
    let first = crate::workspace::ssh_algorithms::missing_from(
        Seq::empty(),
        seq_view(legacy@),
        seq_view(enabled@),
    );
    lemma_missing(Seq::empty(), seq_view(legacy@), seq_view(enabled@), name);
    lemma_missing(first, seq_view(standard@), seq_view(enabled@), name);
}

proof fn lemma_missing(
    found: Seq<Seq<char>>,
    list: Seq<Seq<char>>,
    enabled: Seq<Seq<char>>,
    name: Seq<char>,
)
    requires
        found.no_duplicates(),
    ensures
        ({
            let all = crate::workspace::ssh_algorithms::missing_from(found, list, enabled);
            &&& all.contains(name) <==> found.contains(name) || (list.contains(name)
                && !enabled.contains(name))
            &&& all.no_duplicates()
        }),
    decreases list.len(),
{
    if list.len() > 0 {
        let rest = list.drop_last();
        lemma_missing(found, rest, enabled, name);
        let earlier = crate::workspace::ssh_algorithms::missing_from(found, rest, enabled);
        let all = crate::workspace::ssh_algorithms::missing_from(found, list, enabled);
        if list.contains(name) && name != list.last() {
            let i = choose|i: int| 0 <= i < list.len() && list[i] == name;
            assert(rest[i] == name);
        }
        if rest.contains(name) {
            let i = choose|i: int| 0 <= i < rest.len() && rest[i] == name;
            assert(list[i] == name);
        }
        if name == list.last() {
            assert(list[list.len() - 1] == name);
        }
        if !(enabled.contains(list.last()) || earlier.contains(list.last())) {
            assert(all =~= earlier.push(list.last()));
            if earlier.contains(name) {
                let i = choose|i: int| 0 <= i < earlier.len() && earlier[i] == name;
                assert(all[i] == name);
            }
            if all.contains(name) && name != list.last() {
                let i = choose|i: int| 0 <= i < all.len() && all[i] == name;
                assert(earlier[i] == name);
            }
            assert(all[all.len() - 1] == list.last());
            assert forall|i: int, j: int| 0 <= i < j < all.len() implies all[i] != all[j] by {
                if j == all.len() - 1 {
                    if all[i] == all[j] {
                        assert(earlier[i] == list.last());
                        assert(earlier.contains(list.last()));
                    }
                } else {
                    assert(earlier[i] != earlier[j]);
                }
            }
        }
    }
}

/// An algorithm that is dropped stands at its new place, and the list holds what it held.
pub proof fn law_dropped_algorithms_stand_where_they_were_dropped(
    list: &mut Vec<String>,
    name: &str,
    destination: usize,
    at: int,
)
    requires
        call_ensures(reorder_algorithm, (list, name, destination), ()),
        0 <= at < list@.len(),
        list@[at]@ == name@,
        forall|j: int| 0 <= j < at ==> (#[trigger] list@[j])@ != name@,
    ensures
        final(list)@.len() == old(list)@.len(),
        destination < old(list)@.len() ==> final(list)@[destination as int]@ == name@,
        destination >= old(list)@.len() ==> seq_view(final(list)@) == seq_view(old(list)@),
        seq_view(final(list)@).to_multiset() == seq_view(old(list)@).to_multiset(),
        destination < old(list)@.len() ==> seq_view(final(list)@).remove(destination as int)
            == seq_view(old(list)@).remove(at),
{
    let before = seq_view(old(list)@);
    let after = seq_view(final(list)@);
    lemma_place(before, name@, at);
    assert(after.len() == final(list)@.len());
    assert(before.len() == old(list)@.len());
    if destination < before.len() {
        assert(after[destination as int] == final(list)@[destination as int]@);
    }
    law_reordering_keeps_the_algorithms(before, name@, destination as int);
    if destination < before.len() && destination != at {
        assert(before.remove(at).insert(destination as int, name@).remove(destination as int)
            =~= before.remove(at));
    }
}

proof fn lemma_place(list: Seq<Seq<char>>, name: Seq<char>, at: int)
    requires
        0 <= at < list.len(),
        list[at] == name,
        forall|j: int| 0 <= j < at ==> list[j] != name,
    ensures
        place_of(list, name) == at,
    decreases at,
{
    if at > 0 {
        assert(list.drop_first()[at - 1] == list[at]);
        assert forall|j: int| 0 <= j < at - 1 implies list.drop_first()[j] != name by {
            assert(list.drop_first()[j] == list[j + 1]);
        }
        lemma_place(list.drop_first(), name, at - 1);
    }
}

/// Going back to the preset empties the list of the category on show, and leaving the preset takes it
/// over as it is; no other category changes.
pub proof fn law_presets_are_followed_or_taken_over(
    editor: &mut SshAlgorithmEditor,
    report: &SshCapabilityReport,
    follow: bool,
    preset: Vec<String>,
)
    requires
        call_ensures(SshAlgorithmEditor::follow_preset, (editor, report, follow), ()),
        call_ensures(
            baseline_algorithms,
            (report, editor.legacy_compatibility, editor.category),
            preset,
        ),
        editor.category == SshAlgorithmCategory::Cipher,
    ensures
        follow ==> final(editor).preferences.cipher@.len() == 0,
        !follow && old(editor).preferences.cipher@.len() > 0 ==> seq_view(
            final(editor).preferences.cipher@,
        ) == seq_view(old(editor).preferences.cipher@),
        !follow && old(editor).preferences.cipher@.len() == 0 ==> seq_view(
            final(editor).preferences.cipher@,
        ) == seq_view(preset@),
        final(editor).preferences.kex == old(editor).preferences.kex,
        final(editor).preferences.host_key == old(editor).preferences.host_key,
        final(editor).preferences.mac == old(editor).preferences.mac,
        final(editor).preferences.compression == old(editor).preferences.compression,
{
    assert(seq_view(final(editor).preferences.cipher@).len()
        == final(editor).preferences.cipher@.len());
    assert(seq_view(old(editor).preferences.cipher@).len() == old(
        editor).preferences.cipher@.len());
}

/// An algorithm is added at the end, and once.
pub proof fn law_added_algorithms_stand_last(
    editor: &mut SshAlgorithmEditor,
    report: &SshCapabilityReport,
    name: String,
)
    requires
        call_ensures(
            SshAlgorithmEditor::add_ssh_algorithm,
            (editor, report, SshAlgorithmCategory::Mac, name),
            (),
        ),
        editor.preferences.mac@.len() > 0,
    ensures
        ({
            let before = seq_view(old(editor).preferences.mac@);
            let after = seq_view(final(editor).preferences.mac@);
            &&& before.contains(name@) ==> after == before
            &&& !before.contains(name@) ==> after == before.push(name@)
            &&& final(editor).preferences.cipher == old(editor).preferences.cipher
        }),
{
    assert(seq_view(old(editor).preferences.mac@).len() == old(editor).preferences.mac@.len());
}

/// An algorithm is taken away, and the last one of a category is not.
pub proof fn law_removed_algorithms_are_gone(
    editor: &mut SshAlgorithmEditor,
    report: &SshCapabilityReport,
    name: &str,
    other: Seq<char>,
)
    requires
        call_ensures(
            SshAlgorithmEditor::remove_ssh_algorithm,
            (editor, report, SshAlgorithmCategory::Kex, name),
            (),
        ),
        editor.preferences.kex@.len() > 0,
    ensures
        ({
            let before = seq_view(old(editor).preferences.kex@);
            let after = seq_view(final(editor).preferences.kex@);
            &&& before.len() == 1 ==> after == before
            &&& before.len() > 1 ==> !after.contains(name@)
            &&& before.len() > 1 && other != name@ ==> (after.contains(other) <==> before.contains(
                other,
            ))
        }),
{
    let before = seq_view(old(editor).preferences.kex@);
    assert(before.len() == old(editor).preferences.kex@.len());
    lemma_without(before, name@, other);
    lemma_without(before, name@, name@);
}

proof fn lemma_without(list: Seq<Seq<char>>, name: Seq<char>, other: Seq<char>)
    ensures
        without(list, name).contains(other) <==> list.contains(other) && other != name,
    decreases list.len(),
{
    if list.len() > 0 {
        let rest = list.drop_last();
        lemma_without(rest, name, other);
        let kept = without(rest, name);
        let all = without(list, name);
        if list.contains(other) && other != list.last() {
            let i = choose|i: int| 0 <= i < list.len() && list[i] == other;
            assert(rest[i] == other);
        }
        if rest.contains(other) {
            let i = choose|i: int| 0 <= i < rest.len() && rest[i] == other;
            assert(list[i] == other);
        }
        if other == list.last() {
            assert(list[list.len() - 1] == other);
        }
        if list.last() != name {
            assert(all =~= kept.push(list.last()));
            assert(all[all.len() - 1] == list.last());
            if kept.contains(other) {
                let i = choose|i: int| 0 <= i < kept.len() && kept[i] == other;
                assert(all[i] == other);
            }
            if all.contains(other) && other != list.last() {
                let i = choose|i: int| 0 <= i < all.len() && all[i] == other;
                assert(kept[i] == other);
            }
        }
    }
}

/// An algorithm that is moved changes places with its neighbour, up or down, and stays where it has
/// none.
pub proof fn law_moved_algorithms_change_places(
    editor: &mut SshAlgorithmEditor,
    report: &SshCapabilityReport,
    name: &str,
    down: bool,
    at: int,
)
    requires
        call_ensures(
            SshAlgorithmEditor::move_ssh_algorithm,
            (editor, report, SshAlgorithmCategory::HostKey, name, down),
            (),
        ),
        0 <= at < editor.preferences.host_key@.len(),
        editor.preferences.host_key@[at]@ == name@,
        forall|j: int| 0 <= j < at ==> (#[trigger] editor.preferences.host_key@[j])@ != name@,
    ensures
        ({
            let before = old(editor).preferences.host_key@;
            let after = final(editor).preferences.host_key@;
            &&& after.len() == before.len()
            &&& down && at + 1 < before.len() ==> after[at + 1]@ == name@ && after[at]@ == before[at
                + 1]@
            &&& !down && at > 0 ==> after[at - 1]@ == name@ && after[at]@ == before[at - 1]@
            &&& down && at + 1 == before.len() ==> seq_view(after) == seq_view(before)
            &&& !down && at == 0 ==> seq_view(after) == seq_view(before)
        }),
{
    let before = seq_view(old(editor).preferences.host_key@);
    let after = seq_view(final(editor).preferences.host_key@);
    assert(before.len() == old(editor).preferences.host_key@.len());
    assert(after.len() == final(editor).preferences.host_key@.len());
    lemma_place(before, name@, at);
    if down && at + 1 < before.len() {
        assert(after[at + 1] == final(editor).preferences.host_key@[at + 1]@);
        assert(after[at] == final(editor).preferences.host_key@[at]@);
        assert(before[at + 1] == old(editor).preferences.host_key@[at + 1]@);
    }
    if !down && at > 0 {
        assert(after[at - 1] == final(editor).preferences.host_key@[at - 1]@);
        assert(after[at] == final(editor).preferences.host_key@[at]@);
        assert(before[at - 1] == old(editor).preferences.host_key@[at - 1]@);
    }
}

/// A menu offers what can be done: up where there is one above, down where there is one below.
pub proof fn law_menus_offer_what_can_be_done(
    editor: &SshAlgorithmEditor,
    res: Option<AlgorithmMenu>,
    at: int,
)
    requires
        call_ensures(SshAlgorithmEditor::context_menu, (editor,), res),
        editor.category == SshAlgorithmCategory::Cipher,
        editor.menu is Some,
        0 <= at < editor.preferences.cipher@.len(),
        editor.preferences.cipher@[at]@ == editor.menu->0@,
        forall|j: int| 0 <= j < at ==> (#[trigger] editor.preferences.cipher@[j])@ != editor.menu->0@,
    ensures
        res is Some <==> editor.open,
        res matches Some(menu) ==> menu.name@ == editor.menu->0@ && (menu.can_move_up <==> at > 0)
            && (menu.can_move_down <==> at + 1 < editor.preferences.cipher@.len()),
{
    let list = seq_view(editor.preferences.cipher@);
    assert(list.len() == editor.preferences.cipher@.len());
    lemma_place(list, editor.menu->0@, at);
}

/// A row counts what is enabled, and says whether the user or the client chose it.
pub proof fn law_rows_say_who_chose(
    editor: &SshAlgorithmEditor,
    report: &SshCapabilityReport,
    category: SshAlgorithmCategory,
    res: CategoryRow,
    preferred: &Vec<String>,
    preset: Vec<String>,
)
    requires
        call_ensures(SshAlgorithmEditor::category_row, (editor, report, category), res),
        call_ensures(preference_algorithms, (&editor.preferences, category), preferred),
        call_ensures(baseline_algorithms, (report, editor.legacy_compatibility, category), preset),
    ensures
        res.category == category,
        res.active <==> editor.category == category,
        preferred@.len() == 0 ==> res.count == preset@.len() && res.status@
            == "ssh.form.ssh_algorithms_default"@,
        preferred@.len() > 0 ==> res.count == preferred@.len() && res.status@
            == "ssh.form.ssh_algorithms_custom"@,
{
    assert(seq_view(preset@).len() == preset@.len());
    assert(seq_view(preferred@).len() == preferred@.len());
}

/// Keys count while the editor is open and no field takes them; escape closes the menu first.
pub proof fn law_keys_count_while_the_editor_is_open(
    editor: &mut SshAlgorithmEditor,
    report: &SshCapabilityReport,
    key: EditorKey,
    alt: bool,
    res: bool,
)
    requires
        call_ensures(
            SshAlgorithmEditor::handle_ssh_algorithm_key,
            (editor, report, key, alt),
            res,
        ),
    ensures
        !old(editor).open || old(editor).field_focused || key == EditorKey::Other ==> !res,
        old(editor).open && !old(editor).field_focused && (key == EditorKey::Escape || key
            == EditorKey::Up || key == EditorKey::Down) ==> res,
        !res ==> *final(editor) == *old(editor),
        res && key == EditorKey::Escape && old(editor).menu is Some ==> final(editor).menu is None
            && final(editor).open,
        res && key == EditorKey::Escape && old(editor).menu is None ==> !final(editor).open,
        res && key != EditorKey::Escape ==> final(editor).open && final(editor).category == old(
            editor).category,
{
}

} // verus!
