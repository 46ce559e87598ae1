//! The algorithms that an SSH connection offers, and the editor for them.

use vstd::prelude::*;

use crate::text;
use crate::text::seq_view;
use crate::workspace::labels::{bare, Label, LabelView};

verus! {

#[derive(Clone, Copy, PartialEq, Eq, Structural, Debug)]
pub enum SshAlgorithmCategory {
    Kex,
    HostKey,
    Cipher,
    Mac,
    Compression,
}

/// The algorithms that the user chose; an empty list follows the preset.
pub struct SshAlgorithmPreferences {
    pub kex: Vec<String>,
    pub host_key: Vec<String>,
    pub cipher: Vec<String>,
    pub mac: Vec<String>,
    pub compression: Vec<String>,
}

/// The algorithms of a preset.
pub struct SshAlgorithmOffer {
    pub kex: Vec<String>,
    pub host_key_algorithms: Vec<String>,
    pub ciphers: Vec<String>,
    pub macs: Vec<String>,
    pub compression: Vec<String>,
}

/// What the SSH library can do.
pub struct SshCapabilityReport {
    pub default_offer: SshAlgorithmOffer,
    pub legacy_compatibility_offer: SshAlgorithmOffer,
}

/// The key of the text that names a category.
pub open spec fn category_key(category: SshAlgorithmCategory) -> Seq<char> {
    match category {
        SshAlgorithmCategory::Kex => "ssh.form.ssh_algorithms_category_kex"@,
        SshAlgorithmCategory::HostKey => "ssh.form.ssh_algorithms_category_host_key"@,
        SshAlgorithmCategory::Cipher => "ssh.form.ssh_algorithms_category_cipher"@,
        SshAlgorithmCategory::Mac => "ssh.form.ssh_algorithms_category_mac"@,
        SshAlgorithmCategory::Compression => "ssh.form.ssh_algorithms_category_compression"@,
    }
}

pub fn category_i18n_key(category: SshAlgorithmCategory) -> (res: &'static str)
    ensures
        res@ == category_key(category),
{
    match category {
        SshAlgorithmCategory::Kex => "ssh.form.ssh_algorithms_category_kex",
        SshAlgorithmCategory::HostKey => "ssh.form.ssh_algorithms_category_host_key",
        SshAlgorithmCategory::Cipher => "ssh.form.ssh_algorithms_category_cipher",
        SshAlgorithmCategory::Mac => "ssh.form.ssh_algorithms_category_mac",
        SshAlgorithmCategory::Compression => "ssh.form.ssh_algorithms_category_compression",
    }
}

impl SshAlgorithmOffer {
    /// What a preset offers in a category.
    pub open spec fn of(self, category: SshAlgorithmCategory) -> Seq<Seq<char>> {
        match category {
            SshAlgorithmCategory::Kex => seq_view(self.kex@),
            SshAlgorithmCategory::HostKey => seq_view(self.host_key_algorithms@),
            SshAlgorithmCategory::Cipher => seq_view(self.ciphers@),
            SshAlgorithmCategory::Mac => seq_view(self.macs@),
            SshAlgorithmCategory::Compression => seq_view(self.compression@),
        }
    }
}

pub fn offer_algorithms(offer: &SshAlgorithmOffer, category: SshAlgorithmCategory) -> (res: &Vec<String>)
    ensures
        seq_view(res@) == offer.of(category),
{
    match category {
        SshAlgorithmCategory::Kex => &offer.kex,
        SshAlgorithmCategory::HostKey => &offer.host_key_algorithms,
        SshAlgorithmCategory::Cipher => &offer.ciphers,
        SshAlgorithmCategory::Mac => &offer.macs,
        SshAlgorithmCategory::Compression => &offer.compression,
    }
}

impl SshAlgorithmPreferences {
    /// What the user chose in a category.
    pub open spec fn of(self, category: SshAlgorithmCategory) -> Seq<Seq<char>> {
        match category {
            SshAlgorithmCategory::Kex => seq_view(self.kex@),
            SshAlgorithmCategory::HostKey => seq_view(self.host_key@),
            SshAlgorithmCategory::Cipher => seq_view(self.cipher@),
            SshAlgorithmCategory::Mac => seq_view(self.mac@),
            SshAlgorithmCategory::Compression => seq_view(self.compression@),
        }
    }

    /// Only the choice in one category differs.
    pub open spec fn changed_in(self, before: SshAlgorithmPreferences, category: SshAlgorithmCategory) -> bool {
        match category {
            SshAlgorithmCategory::Kex => self == (SshAlgorithmPreferences {
                kex: self.kex,
                ..before
            }),
            SshAlgorithmCategory::HostKey => self == (SshAlgorithmPreferences {
                host_key: self.host_key,
                ..before
            }),
            SshAlgorithmCategory::Cipher => self == (SshAlgorithmPreferences {
                cipher: self.cipher,
                ..before
            }),
            SshAlgorithmCategory::Mac => self == (SshAlgorithmPreferences {
                mac: self.mac,
                ..before
            }),
            SshAlgorithmCategory::Compression => self == (SshAlgorithmPreferences {
                compression: self.compression,
                ..before
            }),
        }
    }

    fn put(&mut self, category: SshAlgorithmCategory, list: Vec<String>)
        ensures
            final(self).changed_in(*old(self), category),
            final(self).of(category) == seq_view(list@),
    {
        match category {
            SshAlgorithmCategory::Kex => {
                self.kex = list;
            },
            SshAlgorithmCategory::HostKey => {
                self.host_key = list;
            },
            SshAlgorithmCategory::Cipher => {
                self.cipher = list;
            },
            SshAlgorithmCategory::Mac => {
                self.mac = list;
            },
            SshAlgorithmCategory::Compression => {
                self.compression = list;
            },
        }
    }
}

pub fn preference_algorithms(preferences: &SshAlgorithmPreferences, category: SshAlgorithmCategory) -> (res: &Vec<String>)
    ensures
        seq_view(res@) == preferences.of(category),
        res@.len() == preferences.of(category).len(),
{
    match category {
        SshAlgorithmCategory::Kex => &preferences.kex,
        SshAlgorithmCategory::HostKey => &preferences.host_key,
        SshAlgorithmCategory::Cipher => &preferences.cipher,
        SshAlgorithmCategory::Mac => &preferences.mac,
        SshAlgorithmCategory::Compression => &preferences.compression,
    }
}

/// 1 for a category in which the user chose something, otherwise 0.
pub open spec fn customized(preferences: SshAlgorithmPreferences, category: SshAlgorithmCategory) -> nat {
    if preferences.of(category).len() == 0 {
        0
    } else {
        1
    }
}

/// In how many categories the user chose something.
pub open spec fn customized_count(preferences: SshAlgorithmPreferences) -> nat {
    customized(preferences, SshAlgorithmCategory::Kex) + customized(
        preferences,
        SshAlgorithmCategory::HostKey,
    ) + customized(preferences, SshAlgorithmCategory::Cipher) + customized(
        preferences,
        SshAlgorithmCategory::Mac,
    ) + customized(preferences, SshAlgorithmCategory::Compression)
}

fn count_of(preferences: &SshAlgorithmPreferences, category: SshAlgorithmCategory) -> (res: usize)
    ensures
        res == customized(*preferences, category),
{
    if preference_algorithms(preferences, category).len() == 0 {
        0
    } else {
        1
    }
}

pub fn customized_category_count(preferences: &SshAlgorithmPreferences) -> (res: usize)
    ensures
        res == customized_count(*preferences),
{
    count_of(preferences, SshAlgorithmCategory::Kex) + count_of(
        preferences,
        SshAlgorithmCategory::HostKey,
    ) + count_of(preferences, SshAlgorithmCategory::Cipher) + count_of(
        preferences,
        SshAlgorithmCategory::Mac,
    ) + count_of(preferences, SshAlgorithmCategory::Compression)
}

/// The preset of a category.
pub open spec fn baseline(report: SshCapabilityReport, legacy: bool, category: SshAlgorithmCategory) -> Seq<Seq<char>> {
    if legacy {
        report.legacy_compatibility_offer.of(category)
    } else {
        report.default_offer.of(category)
    }
}

pub fn baseline_algorithms(report: &SshCapabilityReport, legacy_compatibility: bool, category: SshAlgorithmCategory) -> (res: Vec<String>)
    ensures
        seq_view(res@) == baseline(*report, legacy_compatibility, category),
{
    let offer = if legacy_compatibility {
        &report.legacy_compatibility_offer
    } else {
        &report.default_offer
    };
    text::duplicate_list(offer_algorithms(offer, category))
}

/// What of a list neither another one nor the names so far hold, each name once.
pub open spec fn missing_from(found: Seq<Seq<char>>, list: Seq<Seq<char>>, enabled: Seq<Seq<char>>) -> Seq<Seq<char>>
    decreases list.len(),
{
    if list.len() == 0 {
        found
    } else {
        let earlier = missing_from(found, list.drop_last(), enabled);
        if enabled.contains(list.last()) || earlier.contains(list.last()) {
            earlier
        } else {
            earlier.push(list.last())
        }
    }
}

/// The algorithms of a category that could be enabled: those of the wider preset first.
pub open spec fn available(report: SshCapabilityReport, category: SshAlgorithmCategory, enabled: Seq<Seq<char>>) -> Seq<Seq<char>> {
    missing_from(
        missing_from(Seq::empty(), report.legacy_compatibility_offer.of(category), enabled),
        report.default_offer.of(category),
        enabled,
    )
}

fn add_missing(found: &mut Vec<String>, list: &Vec<String>, enabled: &Vec<String>)
    ensures
        seq_view(final(found)@) == missing_from(
            seq_view(old(found)@),
            seq_view(list@),
            seq_view(enabled@),
        ),
{
    let ghost all = seq_view(list@);
    let mut at: usize = 0;
    assert(all.take(0) =~= Seq::<Seq<char>>::empty());
    while at < list.len()
        invariant
            at <= list.len(),
            all == seq_view(list@),
            seq_view(found@) == missing_from(
                seq_view(old(found)@),
                all.take(at as int),
                seq_view(enabled@),
            ),
        decreases list.len() - at,
    {
        assert(all.take(at + 1).drop_last() =~= all.take(at as int));
        assert(all.take(at + 1).last() == list@[at as int]@);
        let name = &list[at];
        if !text::list_contains(enabled, name.as_str()) && !text::list_contains(
            found,
            name.as_str(),
        ) {
            let ghost before = found@;
            found.push(name.clone());
            assert(seq_view(found@) =~= seq_view(before).push(name@));
        }
        at = at + 1;
    }
    assert(all.take(at as int) =~= all);
}

pub fn available_algorithms(report: &SshCapabilityReport, category: SshAlgorithmCategory, enabled: &Vec<String>) -> (res: Vec<String>)
    ensures
        seq_view(res@) == available(*report, category, seq_view(enabled@)),
{
    let mut found: Vec<String> = Vec::new();
    assert(seq_view(found@) =~= Seq::<Seq<char>>::empty());
    add_missing(
        &mut found,
        offer_algorithms(&report.legacy_compatibility_offer, category),
        enabled,
    );
    add_missing(&mut found, offer_algorithms(&report.default_offer, category), enabled);
    found
}

proof fn lemma_missing_from(found: Seq<Seq<char>>, list: Seq<Seq<char>>, enabled: Seq<Seq<char>>)
    requires
        found.no_duplicates(),
        forall|i: int| 0 <= i < found.len() ==> !enabled.contains(#[trigger] found[i]),
    ensures
        missing_from(found, list, enabled).no_duplicates(),
        forall|i: int|
            0 <= i < missing_from(found, list, enabled).len() ==> !enabled.contains(
                #[trigger] missing_from(found, list, enabled)[i],
            ),
    decreases list.len(),
{
    if list.len() > 0 {
        lemma_missing_from(found, list.drop_last(), enabled);
        let earlier = missing_from(found, list.drop_last(), enabled);
        let now = missing_from(found, list, enabled);
        assert forall|i: int| 0 <= i < now.len() implies !enabled.contains(#[trigger] now[i]) by {
            if i < earlier.len() {
                assert(now[i] == earlier[i]);
            }
        }
    }
}

/// An algorithm is listed as available at most once, and never while it is enabled.
pub proof fn law_available_algorithms_are_not_enabled(
    report: SshCapabilityReport,
    category: SshAlgorithmCategory,
    enabled: Seq<Seq<char>>,
)
    ensures
        available(report, category, enabled).no_duplicates(),
        forall|i: int|
            0 <= i < available(report, category, enabled).len() ==> !enabled.contains(
                #[trigger] available(report, category, enabled)[i],
            ),
{
    lemma_missing_from(Seq::empty(), report.legacy_compatibility_offer.of(category), enabled);
    lemma_missing_from(
        missing_from(Seq::empty(), report.legacy_compatibility_offer.of(category), enabled),
        report.default_offer.of(category),
        enabled,
    );
}

/// The place of the first occurrence of a name, or the length of the list.
pub open spec fn place_of(list: Seq<Seq<char>>, name: Seq<char>) -> int
    decreases list.len(),
{
    if list.len() == 0 || list[0] == name {
        0
    } else {
        1 + place_of(list.drop_first(), name)
    }
}

proof fn lemma_place_of(list: Seq<Seq<char>>, name: Seq<char>, at: int)
    requires
        0 <= at <= list.len(),
        forall|i: int| 0 <= i < at ==> #[trigger] list[i] != name,
        at < list.len() ==> list[at] == name,
    ensures
        place_of(list, name) == at,
    decreases list.len(),
{
    if list.len() > 0 && list[0] != name {
        assert(at > 0);
        assert forall|i: int| 0 <= i < at - 1 implies #[trigger] list.drop_first()[i] != name by {
            assert(list[i + 1] != name);
        }
        lemma_place_of(list.drop_first(), name, at - 1);
    }
}

fn find_place(list: &Vec<String>, name: &str) -> (res: Option<usize>)
    ensures
        match res {
            Some(at) => at < list@.len() && at == place_of(seq_view(list@), name@)
                && seq_view(list@)[at as int] == name@,
            None => place_of(seq_view(list@), name@) == list@.len() && !seq_view(list@).contains(
                name@,
            ),
        },
{
    let ghost names = seq_view(list@);
    let mut at: usize = 0;
    while at < list.len()
        invariant
            at <= list.len(),
            names == seq_view(list@),
            forall|i: int| 0 <= i < at ==> #[trigger] names[i] != name@,
        decreases list.len() - at,
    {
        if text::same(list[at].as_str(), name) {
            proof {
                lemma_place_of(names, name@, at as int);
            }
            return Some(at);
        }
        assert(names[at as int] != name@);
        at = at + 1;
    }
    proof {
        lemma_place_of(names, name@, at as int);
    }
    None
}

/// A list after one of its names was dragged to another place.
pub open spec fn reordered(list: Seq<Seq<char>>, name: Seq<char>, destination: int) -> Seq<Seq<char>> {
    let at = place_of(list, name);
    if at >= list.len() || destination >= list.len() || destination == at {
        list
    } else {
        list.remove(at).insert(destination, name)
    }
}

/// Moves one algorithm to another place; the others keep their order.
pub fn reorder_algorithm(algorithms: &mut Vec<String>, name: &str, destination: usize)
    ensures
        seq_view(final(algorithms)@) == reordered(seq_view(old(algorithms)@), name@, destination as int),
{
    match find_place(algorithms, name) {
        Some(index) => {
            if destination >= algorithms.len() || destination == index {
                return;
            }
            let ghost before = seq_view(algorithms@);
            let algorithm = algorithms.remove(index);
            assert(seq_view(algorithms@) =~= before.remove(index as int));
            algorithms.insert(destination, algorithm);
            assert(seq_view(algorithms@) =~= before.remove(index as int).insert(
                destination as int,
                name@,
            ));
        },
        None => {},
    }
}

/// Dragging an algorithm neither loses nor adds one.
pub proof fn law_reordering_keeps_the_algorithms(list: Seq<Seq<char>>, name: Seq<char>, destination: int)
    requires
        0 <= destination,
    ensures
        reordered(list, name, destination).to_multiset() == list.to_multiset(),
{
    broadcast use vstd::seq_lib::group_to_multiset_ensures;

    lemma_place_in_range(list, name);
    let at = place_of(list, name);
    if at < list.len() && destination < list.len() && destination != at {
        let rest = list.remove(at);
        assert(list[at] == name);
        assert(rest.insert(destination, name).to_multiset() =~= rest.to_multiset().insert(name));
        assert(rest.to_multiset() =~= list.to_multiset().remove(name));
        assert(list.contains(name));
        assert(list.to_multiset().count(name) > 0);
        assert(list.to_multiset().remove(name).insert(name) =~= list.to_multiset());
    }
}

/// A dragged algorithm is where it was dropped, and the others keep their order.
pub proof fn law_dragging_moves_one_algorithm(list: Seq<Seq<char>>, name: Seq<char>, destination: int)
    requires
        list.contains(name),
        0 <= destination < list.len(),
    ensures
        reordered(list, name, destination)[destination] == name,
        reordered(list, name, destination).remove(destination) == list.remove(
            place_of(list, name),
        ),
{
    lemma_place_in_range(list, name);
    let at = place_of(list, name);
    let k = choose|k: int| 0 <= k < list.len() && list[k] == name;
    lemma_place_at_most(list, name, k);
    if destination != at {
        assert(list.remove(at).insert(destination, name).remove(destination) =~= list.remove(at));
    }
}

proof fn lemma_place_in_range(list: Seq<Seq<char>>, name: Seq<char>)
    ensures
        0 <= place_of(list, name) <= list.len(),
        place_of(list, name) < list.len() ==> list[place_of(list, name)] == name,
    decreases list.len(),
{
    if list.len() > 0 && list[0] != name {
        lemma_place_in_range(list.drop_first(), name);
    }
}

proof fn lemma_place_at_most(list: Seq<Seq<char>>, name: Seq<char>, at: int)
    requires
        0 <= at < list.len(),
        list[at] == name,
    ensures
        place_of(list, name) <= at,
    decreases list.len(),
{
    if list[0] != name {
        assert(list.drop_first()[at - 1] == name);
        lemma_place_at_most(list.drop_first(), name, at - 1);
    }
}

/// A list without a name.
pub open spec fn without(list: Seq<Seq<char>>, name: Seq<char>) -> Seq<Seq<char>>
    decreases list.len(),
{
    if list.len() == 0 {
        list
    } else if list.last() == name {
        without(list.drop_last(), name)
    } else {
        without(list.drop_last(), name).push(list.last())
    }
}

fn drop_name(list: Vec<String>, name: &str) -> (res: Vec<String>)
    ensures
        seq_view(res@) == without(seq_view(list@), name@),
{
    let ghost all = seq_view(list@);
    let mut out: Vec<String> = Vec::new();
    let mut at: usize = 0;
    assert(all.take(0) =~= Seq::<Seq<char>>::empty());
    assert(seq_view(out@) =~= Seq::<Seq<char>>::empty());
    while at < list.len()
        invariant
            at <= list.len(),
            all == seq_view(list@),
            seq_view(out@) == without(all.take(at as int), name@),
        decreases list.len() - at,
    {
        assert(all.take(at + 1).drop_last() =~= all.take(at as int));
        assert(all.take(at + 1).last() == list@[at as int]@);
        if !text::same(list[at].as_str(), name) {
            let ghost before = out@;
            out.push(list[at].clone());
            assert(seq_view(out@) =~= seq_view(before).push(list@[at as int]@));
        }
        at = at + 1;
    }
    assert(all.take(at as int) =~= all);
    out
}

fn swap_with_next(list: &mut Vec<String>, at: usize)
    requires
        at + 1 < old(list)@.len(),
    ensures
        seq_view(final(list)@) == seq_view(old(list)@).update(
            at as int,
            seq_view(old(list)@)[at + 1],
        ).update(at + 1, seq_view(old(list)@)[at as int]),
{
    let total: usize = list.len();
    assert(at + 1 < total);
    let name = list.remove(at + 1);
    list.insert(at, name);
    assert(seq_view(list@) =~= seq_view(old(list)@).update(
        at as int,
        seq_view(old(list)@)[at + 1],
    ).update(at + 1, seq_view(old(list)@)[at as int]));
}

/// The list that an edit starts from: the user's, or the preset where there is none.
pub open spec fn start_of(chosen: Seq<Seq<char>>, preset: Seq<Seq<char>>) -> Seq<Seq<char>> {
    if chosen.len() == 0 {
        preset
    } else {
        chosen
    }
}

/// A list with one of its names moved up (-1) or down (1).
pub open spec fn moved(list: Seq<Seq<char>>, name: Seq<char>, offset: int) -> Seq<Seq<char>> {
    let at = place_of(list, name);
    let target = at + offset;
    if at < list.len() && 0 <= target < list.len() {
        list.update(at, list[target]).update(target, list[at])
    } else {
        list
    }
}

/// A list with a name disabled. The last one stays.
pub open spec fn removed(list: Seq<Seq<char>>, name: Seq<char>) -> Seq<Seq<char>> {
    if list.len() > 1 {
        without(list, name)
    } else {
        list
    }
}

/// A list with a name enabled.
pub open spec fn added(list: Seq<Seq<char>>, name: Seq<char>) -> Seq<Seq<char>> {
    if list.contains(name) {
        list
    } else {
        list.push(name)
    }
}

proof fn lemma_without_len(list: Seq<Seq<char>>, name: Seq<char>)
    requires
        list.no_duplicates(),
    ensures
        without(list, name).len() >= list.len() - 1,
        !list.contains(name) ==> without(list, name) == list,
    decreases list.len(),
{
    if list.len() > 0 {
        let rest = list.drop_last();
        assert(rest.no_duplicates()) by {
            assert forall|i: int, j: int| 0 <= i < rest.len() && 0 <= j < rest.len() && i != j implies rest[i]
                != rest[j] by {
                assert(rest[i] == list[i] && rest[j] == list[j]);
            }
        }
        lemma_without_len(rest, name);
        if list.last() == name {
            assert(!rest.contains(name)) by {
                if rest.contains(name) {
                    let i = choose|i: int| 0 <= i < rest.len() && rest[i] == name;
                    assert(list[i] == list[list.len() - 1]);
                }
            }
        } else if !list.contains(name) {
            assert(!rest.contains(name)) by {
                if rest.contains(name) {
                    let i = choose|i: int| 0 <= i < rest.len() && rest[i] == name;
                    assert(list[i] == name);
                }
            }
            assert(rest.push(list.last()) =~= list);
        }
    }
}

/// Disabling an algorithm never leaves a category without one.
pub proof fn law_a_category_keeps_an_algorithm(list: Seq<Seq<char>>, name: Seq<char>)
    requires
        list.len() > 0,
        list.no_duplicates(),
    ensures
        removed(list, name).len() > 0,
{
    lemma_without_len(list, name);
}

/// Enabling an algorithm never lists it twice.
pub proof fn law_enabling_lists_an_algorithm_once(list: Seq<Seq<char>>, name: Seq<char>)
    requires
        list.no_duplicates(),
    ensures
        added(list, name).no_duplicates(),
        added(list, name).contains(name),
{
    if !list.contains(name) {
        let now = list.push(name);
        assert(now[list.len() as int] == name);
        assert forall|i: int, j: int| 0 <= i < now.len() && 0 <= j < now.len() && i != j implies now[i]
            != now[j] by {
            if i == list.len() {
                assert(list.contains(list[j]));
            } else if j == list.len() {
                assert(list.contains(list[i]));
            }
        }
    }
}

/// Moving an algorithm up and then down again changes nothing.
pub proof fn law_moves_undo_each_other(list: Seq<Seq<char>>, name: Seq<char>)
    requires
        list.no_duplicates(),
        0 < place_of(list, name) < list.len(),
    ensures
        moved(moved(list, name, -1), name, 1) == list,
{
    lemma_place_in_range(list, name);
    let at = place_of(list, name);
    let up = moved(list, name, -1);
    assert(up[at - 1] == name);
    assert forall|i: int| 0 <= i < at - 1 implies #[trigger] up[i] != name by {
        assert(up[i] == list[i]);
        assert(list[i] != list[at]);
    }
    lemma_place_of(up, name, at - 1);
    assert(moved(up, name, 1) =~= list);
}

/// The editor for the algorithms of a connection. `menu` names the row whose menu is open.
pub struct SshAlgorithmEditor {
    pub open: bool,
    pub preferences: SshAlgorithmPreferences,
    pub legacy_compatibility: bool,
    pub category: SshAlgorithmCategory,
    pub selected: Option<String>,
    pub menu: Option<String>,
    pub field_focused: bool,
}

/// A key that the editor knows.
#[derive(Clone, Copy, PartialEq, Eq, Structural, Debug)]
pub enum EditorKey {
    Escape,
    Up,
    Down,
    Space,
    Other,
}

/// One algorithm in the editor. The heading of the disabled ones stands above the first of them.
pub struct AlgorithmRow {
    pub name: String,
    pub checked: bool,
    pub disabled: bool,
    pub draggable: bool,
    pub legacy: bool,
    pub selected: bool,
    pub heading: bool,
}

/// The algorithms of the category that the editor shows.
pub struct AlgorithmDetail {
    pub title: &'static str,
    pub inherited: bool,
    pub hint: &'static str,
    pub rows: Vec<AlgorithmRow>,
}

/// A category in the editor: how many algorithms it has, and the key of the text that says whose
/// they are.
pub struct CategoryRow {
    pub category: SshAlgorithmCategory,
    pub title: &'static str,
    pub active: bool,
    pub status: &'static str,
    pub count: usize,
}

/// The menu of a row.
pub struct AlgorithmMenu {
    pub name: String,
    pub can_move_up: bool,
    pub can_move_down: bool,
}

impl SshAlgorithmEditor {
    /// The enabled algorithms of a category.
    pub open spec fn enabled(self, report: SshCapabilityReport, category: SshAlgorithmCategory) -> Seq<Seq<char>> {
        start_of(
            self.preferences.of(category),
            baseline(report, self.legacy_compatibility, category),
        )
    }

    /// All algorithms of a category: the enabled ones, then those that could be.
    pub open spec fn listed(self, report: SshCapabilityReport) -> Seq<Seq<char>> {
        let enabled = self.enabled(report, self.category);
        enabled + available(report, self.category, enabled)
    }

    fn enabled_algorithms(&self, report: &SshCapabilityReport, category: SshAlgorithmCategory) -> (res: Vec<String>)
        ensures
            seq_view(res@) == self.enabled(*report, category),
    {
        let chosen = preference_algorithms(&self.preferences, category);
        if chosen.len() == 0 {
            baseline_algorithms(report, self.legacy_compatibility, category)
        } else {
            text::duplicate_list(chosen)
        }
    }

    /// Only the choice in one category differs, and is this list now.
    pub open spec fn chosen(self, before: SshAlgorithmEditor, category: SshAlgorithmCategory, list: Seq<Seq<char>>) -> bool {
        &&& self == (SshAlgorithmEditor { preferences: self.preferences, ..before })
        &&& self.preferences.changed_in(before.preferences, category)
        &&& self.preferences.of(category) == list
    }

    /// Moves an algorithm up or down. A category that followed its preset becomes the user's.
    pub fn move_ssh_algorithm(&mut self, report: &SshCapabilityReport, category: SshAlgorithmCategory, algorithm: &str, down: bool)
        ensures
            final(self).chosen(
                *old(self),
                category,
                moved(
                    old(self).enabled(*report, category),
                    algorithm@,
                    if down {
                        1
                    } else {
                        -1
                    },
                ),
            ),
    {
        let mut list = self.enabled_algorithms(report, category);
        let ghost before = seq_view(list@);
        match find_place(&list, algorithm) {
            Some(index) => {
                if down {
                    if index < list.len() - 1 {
                        swap_with_next(&mut list, index);
                        assert(seq_view(list@) =~= moved(before, algorithm@, 1));
                    }
                } else if index > 0 {
                    swap_with_next(&mut list, index - 1);
                    assert(seq_view(list@) =~= moved(before, algorithm@, -1));
                }
            },
            None => {},
        }
        self.preferences.put(category, list);
    }

    /// Disables an algorithm, unless it is the only one.
    pub fn remove_ssh_algorithm(&mut self, report: &SshCapabilityReport, category: SshAlgorithmCategory, algorithm: &str)
        ensures
            final(self).chosen(
                *old(self),
                category,
                removed(old(self).enabled(*report, category), algorithm@),
            ),
    {
        let list = self.enabled_algorithms(report, category);
        assert(seq_view(list@).len() == list@.len());
        let rest = if list.len() > 1 {
            drop_name(list, algorithm)
        } else {
            list
        };
        self.preferences.put(category, rest);
    }

    /// Enables an algorithm.
    pub fn add_ssh_algorithm(&mut self, report: &SshCapabilityReport, category: SshAlgorithmCategory, algorithm: String)
        ensures
            final(self).chosen(
                *old(self),
                category,
                added(old(self).enabled(*report, category), algorithm@),
            ),
    {
        let mut list = self.enabled_algorithms(report, category);
        if !text::list_contains(&list, algorithm.as_str()) {
            let ghost before = list@;
            list.push(algorithm);
            assert(seq_view(list@) =~= seq_view(before).push(algorithm@));
        }
        self.preferences.put(category, list);
    }

    /// Opens the editor.
    pub fn open_editor(&mut self)
        ensures
            *final(self) == (SshAlgorithmEditor { open: true, field_focused: false, ..*old(self) }),
    {
        self.open = true;
        self.field_focused = false;
    }

    /// Closes the editor.
    pub fn close_editor(&mut self)
        ensures
            *final(self) == (SshAlgorithmEditor { open: false, menu: None, ..*old(self) }),
    {
        self.open = false;
        self.menu = None;
    }

    /// Shows another category.
    pub fn select_category(&mut self, category: SshAlgorithmCategory)
        ensures
            *final(self) == (SshAlgorithmEditor {
                category,
                selected: None,
                menu: None,
                ..*old(self)
            }),
    {
        self.category = category;
        self.selected = None;
        self.menu = None;
    }

    /// Lets the shown category follow its preset, or makes it the user's.
    pub fn follow_preset(&mut self, report: &SshCapabilityReport, follow: bool)
        ensures
            ({
                let category = old(self).category;
                &&& *final(self) == (SshAlgorithmEditor {
                    preferences: final(self).preferences,
                    field_focused: false,
                    menu: None,
                    ..*old(self)
                })
                &&& final(self).preferences.changed_in(old(self).preferences, category)
                &&& final(self).preferences.of(category) == if follow {
                    Seq::empty()
                } else {
                    old(self).enabled(*report, category)
                }
            }),
    {
        let category = self.category;
        if follow {
            let nothing: Vec<String> = Vec::new();
            assert(seq_view(nothing@) =~= Seq::<Seq<char>>::empty());
            self.preferences.put(category, nothing);
        } else {
            let list = self.enabled_algorithms(report, category);
            self.preferences.put(category, list);
        }
        self.field_focused = false;
        self.menu = None;
    }

    /// Drops a dragged algorithm on another one of the same category.
    pub fn drop_algorithm(&mut self, category: SshAlgorithmCategory, dragged: String, target: &str)
        ensures
            category != old(self).category ==> *final(self) == *old(self),
            category == old(self).category ==> {
                let list = old(self).preferences.of(category);
                let destination = place_of(list, target@);
                &&& *final(self) == (SshAlgorithmEditor {
                    preferences: final(self).preferences,
                    selected: Some(dragged),
                    ..*old(self)
                })
                &&& final(self).preferences.changed_in(old(self).preferences, category)
                &&& final(self).preferences.of(category) == reordered(list, dragged@, destination)
            },
    {
        if category != self.category {
            return;
        }
        let mut list = text::duplicate_list(preference_algorithms(&self.preferences, category));
        match find_place(&list, target) {
            Some(destination) => {
                reorder_algorithm(&mut list, dragged.as_str(), destination);
            },
            None => {},
        }
        self.preferences.put(category, list);
        self.selected = Some(dragged);
    }

    /// Selects a row.
    pub fn select_row(&mut self, name: String)
        ensures
            *final(self) == (SshAlgorithmEditor {
                selected: Some(name),
                field_focused: false,
                ..*old(self)
            }),
    {
        self.selected = Some(name);
        self.field_focused = false;
    }

    /// Opens the menu of a row.
    pub fn open_menu(&mut self, name: String)
        ensures
            *final(self) == (SshAlgorithmEditor {
                menu: Some(name),
                selected: Some(name),
                field_focused: false,
                ..*old(self)
            }),
    {
        self.menu = Some(name.clone());
        self.selected = Some(name);
        self.field_focused = false;
    }

    /// Uses or closes the menu of a row: moves the row's algorithm, where that is said.
    pub fn use_menu(&mut self, report: &SshCapabilityReport, category: SshAlgorithmCategory, algorithm: &str, down: bool)
        ensures
            ({
                let list = moved(
                    old(self).enabled(*report, category),
                    algorithm@,
                    if down {
                        1
                    } else {
                        -1
                    },
                );
                &&& *final(self) == (SshAlgorithmEditor {
                    preferences: final(self).preferences,
                    menu: None,
                    ..*old(self)
                })
                &&& final(self).preferences.changed_in(old(self).preferences, category)
                &&& final(self).preferences.of(category) == list
            }),
    {
        self.move_ssh_algorithm(report, category, algorithm, down);
        self.menu = None;
    }

    /// The menu that is shown, where one is.
    pub fn context_menu(&self) -> (res: Option<AlgorithmMenu>)
        ensures
            ({
                let list = self.preferences.of(self.category);
                match res {
                    Some(menu) => {
                        let at = place_of(list, menu.name@);
                        &&& self.open
                        &&& self.menu is Some && self.menu->0@ == menu.name@
                        &&& at < list.len()
                        &&& menu.can_move_up == (at != 0)
                        &&& menu.can_move_down == (at + 1 != list.len())
                    },
                    None => !self.open || self.menu is None || place_of(list, self.menu->0@)
                        == list.len(),
                }
            }),
    {
        if !self.open {
            return None;
        }
        match &self.menu {
            Some(name) => {
                let list = preference_algorithms(&self.preferences, self.category);
                match find_place(list, name.as_str()) {
                    Some(index) => Some(
                        AlgorithmMenu {
                            name: name.clone(),
                            can_move_up: index != 0,
                            can_move_down: index != list.len() - 1,
                        },
                    ),
                    None => None,
                }
            },
            None => None,
        }
    }

    /// The row that keys act on: the selected one, or the first.
    pub open spec fn current(self, names: Seq<Seq<char>>) -> int {
        match self.selected {
            Some(name) => {
                let at = place_of(names, name@);
                if at < names.len() {
                    at
                } else {
                    0
                }
            },
            None => 0,
        }
    }

    /// The row next to the current one.
    pub open spec fn neighbour(self, names: Seq<Seq<char>>, down: bool) -> int {
        let at = self.current(names);
        if down {
            if at + 1 < names.len() {
                at + 1
            } else {
                at
            }
        } else if at > 0 {
            at - 1
        } else {
            0
        }
    }

    /// What an arrow key does: with the modifier it moves the current row of the user's list,
    /// otherwise it selects the next one.
    pub open spec fn arrow_pressed(self, before: SshAlgorithmEditor, report: SshCapabilityReport, down: bool, alt: bool) -> bool {
        let names = before.listed(report);
        let inherited = before.preferences.of(before.category).len() == 0;
        if alt && !inherited {
            if names.len() == 0 {
                self == before
            } else {
                self.chosen(
                    before,
                    before.category,
                    moved(
                        before.enabled(report, before.category),
                        names[before.current(names)],
                        if down {
                            1
                        } else {
                            -1
                        },
                    ),
                )
            }
        } else if names.len() == 0 {
            self == before
        } else {
            &&& self == (SshAlgorithmEditor { selected: self.selected, ..before })
            &&& self.selected is Some
            &&& self.selected->0@ == names[before.neighbour(names, down)]
        }
    }

    /// What the space key does in the user's list: it enables or disables the current row.
    pub open spec fn space_pressed(self, before: SshAlgorithmEditor, report: SshCapabilityReport) -> bool {
        let names = before.listed(report);
        let enabled = before.enabled(report, before.category);
        let name = names[before.current(names)];
        if names.len() == 0 {
            self == before
        } else {
            self.chosen(
                before,
                before.category,
                if enabled.contains(name) {
                    removed(enabled, name)
                } else {
                    added(enabled, name)
                },
            )
        }
    }

    fn listed_names(&self, report: &SshCapabilityReport) -> (res: (Vec<String>, usize))
        ensures
            ({
                let (names, at) = res;
                &&& seq_view(names@) == self.listed(*report)
                &&& names@.len() == self.listed(*report).len()
                &&& at == self.current(seq_view(names@))
                &&& names@.len() > 0 ==> at < names@.len()
            }),
    {
        let mut names = self.enabled_algorithms(report, self.category);
        let ghost enabled = seq_view(names@);
        let mut rest = available_algorithms(report, self.category, &names);
        let ghost more = seq_view(rest@);
        names.append(&mut rest);
        assert(seq_view(names@) =~= enabled + more);
        assert(seq_view(names@).len() == names@.len());
        let at: usize = match &self.selected {
            Some(name) => match find_place(&names, name.as_str()) {
                Some(at) => at,
                None => 0,
            },
            None => 0,
        };
        (names, at)
    }

    fn press_arrow(&mut self, report: &SshCapabilityReport, down: bool, alt: bool)
        ensures
            final(self).arrow_pressed(*old(self), *report, down, alt),
    {
        let inherited = preference_algorithms(&self.preferences, self.category).len() == 0;
        let (names, at) = self.listed_names(report);
        if names.len() == 0 {
            return;
        }
        let category = self.category;
        if alt && !inherited {
            assert(names@[at as int]@ == seq_view(names@)[at as int]);
            self.move_ssh_algorithm(report, category, names[at].as_str(), down);
            return;
        }
        let next: usize = if down {
            if at + 1 < names.len() {
                at + 1
            } else {
                at
            }
        } else if at > 0 {
            at - 1
        } else {
            0
        };
        assert(names@[next as int]@ == seq_view(names@)[next as int]);
        self.selected = Some(names[next].clone());
    }

    fn press_space(&mut self, report: &SshCapabilityReport)
        ensures
            final(self).space_pressed(*old(self), *report),
    {
        let (names, at) = self.listed_names(report);
        if names.len() == 0 {
            return;
        }
        assert(names@[at as int]@ == seq_view(names@)[at as int]);
        let category = self.category;
        let enabled = self.enabled_algorithms(report, category);
        if text::list_contains(&enabled, names[at].as_str()) {
            self.remove_ssh_algorithm(report, category, names[at].as_str());
        } else {
            self.add_ssh_algorithm(report, category, names[at].clone());
        }
    }

    /// Whether the editor takes a key: only while it is open and no field has the focus.
    pub open spec fn takes_key(self, key: EditorKey) -> bool {
        &&& self.open
        &&& !self.field_focused
        &&& key != EditorKey::Other
        &&& key == EditorKey::Space ==> self.preferences.of(self.category).len() > 0
    }

    /// A key was pressed. Says whether the editor took it.
    pub fn handle_ssh_algorithm_key(&mut self, report: &SshCapabilityReport, key: EditorKey, alt: bool) -> (res: bool)
        ensures
            res == old(self).takes_key(key),
            !res ==> *final(self) == *old(self),
            res ==> match key {
                EditorKey::Escape => *final(self) == if old(self).menu is Some {
                    SshAlgorithmEditor { menu: None, ..*old(self) }
                } else {
                    SshAlgorithmEditor { open: false, ..*old(self) }
                },
                EditorKey::Up => final(self).arrow_pressed(*old(self), *report, false, alt),
                EditorKey::Down => final(self).arrow_pressed(*old(self), *report, true, alt),
                EditorKey::Space => final(self).space_pressed(*old(self), *report),
                EditorKey::Other => true,
            },
    {
        if !self.open || self.field_focused {
            return false;
        }
        match key {
            EditorKey::Escape => {
                if self.menu.is_some() {
                    self.menu = None;
                } else {
                    self.open = false;
                }
            },
            EditorKey::Up => {
                self.press_arrow(report, false, alt);
            },
            EditorKey::Down => {
                self.press_arrow(report, true, alt);
            },
            EditorKey::Space => {
                if preference_algorithms(&self.preferences, self.category).len() == 0 {
                    return false;
                }
                self.press_space(report);
            },
            EditorKey::Other => {
                return false;
            },
        }
        true
    }

    /// What the form says of the algorithms.
    pub fn navigation_status(&self) -> (res: Label)
        ensures
            res@ == if customized_count(self.preferences) == 0 {
                bare("ssh.form.ssh_algorithms_default"@)
            } else {
                LabelView {
                    key: "ssh.form.ssh_algorithms_custom_count"@,
                    values: seq![("count"@, text::decimal(customized_count(self.preferences)))],
                }
            },
    {
        let count = customized_category_count(&self.preferences);
        if count == 0 {
            Label::new("ssh.form.ssh_algorithms_default")
        } else {
            let res = Label::new("ssh.form.ssh_algorithms_custom_count").with(
                "count",
                text::number(count as u64),
            );
            assert(res@.values =~= seq![("count"@, text::decimal(customized_count(self.preferences)))]);
            res
        }
    }

    /// What the editor says of a category.
    pub fn category_row(&self, report: &SshCapabilityReport, category: SshAlgorithmCategory) -> (res: CategoryRow)
        ensures
            res.category == category,
            res.title@ == category_key(category),
            res.active == (self.category == category),
            res.count == self.enabled(*report, category).len(),
            res.status@ == if self.preferences.of(category).len() == 0 {
                "ssh.form.ssh_algorithms_default"@
            } else {
                "ssh.form.ssh_algorithms_custom"@
            },
    {
        let list = self.enabled_algorithms(report, category);
        assert(seq_view(list@).len() == list@.len());
        let own = preference_algorithms(&self.preferences, category).len() > 0;
        CategoryRow {
            category,
            title: category_i18n_key(category),
            active: self.category == category,
            status: if own {
                "ssh.form.ssh_algorithms_custom"
            } else {
                "ssh.form.ssh_algorithms_default"
            },
            count: list.len(),
        }
    }

    /// The row of an algorithm.
    pub open spec fn is_row(self, row: AlgorithmRow, report: SshCapabilityReport, at: int) -> bool {
        let names = self.listed(report);
        let enabled = self.enabled(report, self.category);
        let inherited = self.preferences.of(self.category).len() == 0;
        &&& row.name@ == names[at]
        &&& row.checked == (at < enabled.len())
        &&& row.disabled == (inherited || (row.checked && enabled.len() == 1))
        &&& row.draggable == (row.checked && !inherited)
        &&& row.legacy == !report.default_offer.of(self.category).contains(names[at])
        &&& row.selected == (self.selected is Some && self.selected->0@ == names[at])
        &&& row.heading == (at == enabled.len())
    }

    /// The algorithms of the shown category.
    pub fn detail_column(&self, report: &SshCapabilityReport) -> (res: AlgorithmDetail)
        ensures
            res.title@ == category_key(self.category),
            res.inherited == (self.preferences.of(self.category).len() == 0),
            res.hint@ == if res.inherited {
                "ssh.form.ssh_algorithms_inherited_hint"@
            } else {
                "ssh.form.ssh_algorithms_edit_hint"@
            },
            res.rows@.len() == self.listed(*report).len(),
            forall|i: int|
                0 <= i < res.rows@.len() ==> self.is_row(#[trigger] res.rows@[i], *report, i),
    {
        let inherited = preference_algorithms(&self.preferences, self.category).len() == 0;
        let enabled = self.enabled_algorithms(report, self.category);
        assert(seq_view(enabled@).len() == enabled@.len());
        let (names, _) = self.listed_names(report);
        let modern = offer_algorithms(&report.default_offer, self.category);
        let mut rows: Vec<AlgorithmRow> = Vec::new();
        let mut at: usize = 0;
        while at < names.len()
            invariant
                at <= names.len(),
                rows@.len() == at,
                seq_view(names@) == self.listed(*report),
                seq_view(enabled@) == self.enabled(*report, self.category),
                enabled@.len() == seq_view(enabled@).len(),
                seq_view(modern@) == report.default_offer.of(self.category),
                inherited == (self.preferences.of(self.category).len() == 0),
                forall|i: int| 0 <= i < at ==> self.is_row(#[trigger] rows@[i], *report, i),
            decreases names.len() - at,
        {
            assert(names@[at as int]@ == seq_view(names@)[at as int]);
            let name = &names[at];
            let checked = at < enabled.len();
            let selected = match &self.selected {
                Some(selected) => text::same(selected.as_str(), name.as_str()),
                None => false,
            };
            rows.push(
                AlgorithmRow {
                    name: name.clone(),
                    checked,
                    disabled: inherited || (checked && enabled.len() == 1),
                    draggable: checked && !inherited,
                    legacy: !text::list_contains(modern, name.as_str()),
                    selected,
                    heading: at == enabled.len(),
                },
            );
            at = at + 1;
        }
        assert(seq_view(names@).len() == names@.len());
        AlgorithmDetail {
            title: category_i18n_key(self.category),
            inherited,
            hint: if inherited {
                "ssh.form.ssh_algorithms_inherited_hint"
            } else {
                "ssh.form.ssh_algorithms_edit_hint"
            },
            rows,
        }
    }
}

} // verus!
