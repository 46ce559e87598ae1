//! Sections that open and close with a motion.

use vstd::prelude::*;

use crate::table::{Key, Table};
use crate::text;
use crate::workspace::app::WorkspaceApp;

verus! {

/// Whether a text starts with another one.
pub open spec fn starts_with(text: Seq<char>, start: Seq<char>) -> bool {
    start.len() <= text.len() && text.take(start.len() as int) == start
}

fn has_prefix(text: &str, start: &str) -> (res: bool)
    ensures
        res == starts_with(text@, start@),
{
    let a = text::chars_of(text);
    let b = text::chars_of(start);
    if b.len() > a.len() {
        return false;
    }
    let mut i: usize = 0;
    while i < b.len()
        invariant
            i <= b.len() <= a.len(),
            a@ == text@,
            b@ == start@,
            forall|j: int| 0 <= j < i ==> text@[j] == #[trigger] start@[j],
        decreases b.len() - i,
    {
        if a[i] != b[i] {
            assert(text@.take(start@.len() as int)[i as int] != start@[i as int]);
            return false;
        }
        i += 1;
    }
    assert(text@.take(start@.len() as int) =~= start@);
    true
}

/// A motion under way.
pub struct DisclosureTransition {
    pub generation: u64,
    pub expanded: bool,
}

/// Where a motion starts.
#[derive(Clone, Copy, PartialEq, Eq, Structural, Debug)]
pub enum MotionStart {
    Closed,
    Open,
    /// Where the motion that it takes over from has got to.
    WhereItIs,
}

/// The motion that a timer ends.
pub struct DisclosureTimer {
    pub key: String,
    pub generation: u64,
    pub start: MotionStart,
}


/// The motions under way. Only their keys and scalar state are kept, never what a section shows.
pub struct DisclosureMotions {
    pub generation: u64,
    pub entries: Table<String, DisclosureTransition>,
}

/// The motions whose key starts with a prefix, in the order of their keys.
pub open spec fn is_signature(
    entries: Map<Seq<char>, DisclosureTransition>,
    prefix: Seq<char>,
    signature: Seq<(Seq<char>, u64)>,
) -> bool {
    &&& text::strictly_sorted(signature.map_values(|part: (Seq<char>, u64)| part.0))
    &&& forall|i: int|
        0 <= i < signature.len() ==> {
            let (key, generation) = #[trigger] signature[i];
            &&& entries.dom().contains(key)
            &&& starts_with(key, prefix)
            &&& entries[key].generation == generation
        }
    &&& forall|key: Seq<char>| #[trigger]
        entries.dom().contains(key) && starts_with(key, prefix) ==> signature.contains(
            (key, entries[key].generation),
        )
}

pub open spec fn parts_view(parts: Seq<(String, u64)>) -> Seq<(Seq<char>, u64)> {
    parts.map_values(|part: (String, u64)| (part.0@, part.1))
}

impl DisclosureMotions {
    pub open spec fn wf(self) -> bool {
        self.entries.wf()
    }

    pub fn new() -> (res: DisclosureMotions)
        ensures
            res.wf(),
            res.generation == 0,
            res.entries@ == Map::<Seq<char>, DisclosureTransition>::empty(),
    {
        DisclosureMotions { generation: 0, entries: Table::new() }
    }

    pub open spec fn next_generation(self) -> u64 {
        if self.generation == u64::MAX {
            0
        } else {
            (self.generation + 1) as u64
        }
    }

    /// A motion began, in place of one that was under way for the same section.
    pub open spec fn begun(self, before: DisclosureMotions, key: Seq<char>, expanded: bool) -> bool {
        &&& self.generation == before.next_generation()
        &&& self.entries@ == before.entries@.insert(
            key,
            DisclosureTransition { generation: before.next_generation(), expanded },
        )
    }

    /// Where a motion of a section starts.
    pub open spec fn start_of(self, key: Seq<char>, expanded: bool) -> MotionStart {
        if self.entries@.dom().contains(key) {
            MotionStart::WhereItIs
        } else if expanded {
            MotionStart::Closed
        } else {
            MotionStart::Open
        }
    }

    pub fn begin(&mut self, key: String, expanded: bool) -> (res: DisclosureTimer)
        requires
            old(self).wf(),
        ensures
            final(self).wf(),
            final(self).begun(*old(self), key@, expanded),
            res.key == key,
            res.generation == final(self).generation,
            res.start == old(self).start_of(key@, expanded),
    {
        self.generation = self.generation.wrapping_add(1);
        let start = if self.entries.contains(&key) {
            MotionStart::WhereItIs
        } else if expanded {
            MotionStart::Closed
        } else {
            MotionStart::Open
        };
        let generation: u64 = self.generation;
        self.entries.insert(key.clone(), DisclosureTransition { generation, expanded });
        DisclosureTimer { key, generation, start }
    }

    /// Whether a timer's motion is still the one under way.
    pub open spec fn is_under_way(self, key: Seq<char>, generation: u64) -> bool {
        self.entries@.dom().contains(key) && self.entries@[key].generation == generation
    }

    /// A motion's time is over. A timer of a motion that another one took over from changes nothing.
    pub fn finish(&mut self, key: &str, generation: u64) -> (res: bool)
        requires
            old(self).wf(),
        ensures
            final(self).wf(),
            final(self).generation == old(self).generation,
            res == old(self).is_under_way(key@, generation),
            res ==> final(self).entries@ == old(self).entries@.remove(key@),
            !res ==> *final(self) == *old(self),
    {
        let key = key.to_owned();
        let under_way = match self.entries.get(&key) {
            Some(entry) => entry.generation == generation,
            None => false,
        };
        if under_way {
            self.entries.remove(&key);
        }
        under_way
    }

    /// Whether a section's content is still shown: it is open, or closes.
    pub fn retained(&self, key: &str, expanded: bool) -> (res: bool)
        requires
            self.wf(),
        ensures
            res == (expanded || self.entries@.dom().contains(key@) && !self.entries@[key@].expanded),
    {
        if expanded {
            return true;
        }
        match self.entries.get(&key.to_owned()) {
            Some(entry) => !entry.expanded,
            None => false,
        }
    }

    /// The motions whose key starts with a prefix: what is drawn for them is out of date when this
    /// differs.
    pub fn signature(&self, owner_prefix: &str) -> (res: Vec<(String, u64)>)
        requires
            self.wf(),
        ensures
            is_signature(self.entries@, owner_prefix@, parts_view(res@)),
    {
        let all = self.entries.keys();
        let mut keys: Vec<String> = Vec::new();
        let mut i: usize = 0;
        assert(text::strictly_sorted(text::seq_view(keys@)));
        while i < all.len()
            invariant
                i <= all.len(),
                text::strictly_sorted(text::seq_view(keys@)),
                forall|t: Seq<char>| #[trigger]
                    text::seq_view(keys@).contains(t) == (exists|j: int|
                        0 <= j < i && (#[trigger] all@[j])@ == t && starts_with(t, owner_prefix@)),
            decreases all.len() - i,
        {
            let ghost before = text::seq_view(keys@);
            if has_prefix(all[i].as_str(), owner_prefix) {
                text::insert_sorted(&mut keys, all[i].clone());
            }
            assert forall|t: Seq<char>| #[trigger] text::seq_view(keys@).contains(t) == (exists|j: int|
                0 <= j < i + 1 && (#[trigger] all@[j])@ == t && starts_with(t, owner_prefix@)) by {
                assert(before.contains(t) == (exists|j: int|
                    0 <= j < i && (#[trigger] all@[j])@ == t && starts_with(t, owner_prefix@)));
                if all@[i as int]@ == t && starts_with(t, owner_prefix@) {
                    assert(text::seq_view(keys@).contains(t));
                }
            }
            i += 1;
        }
        let ghost sorted = text::seq_view(keys@);
        proof {
            assert forall|j: int| 0 <= j < keys@.len() implies self.entries@.dom().contains((#[trigger] keys@[j])@)
                && starts_with(keys@[j]@, owner_prefix@) by {
                assert(sorted[j] == keys@[j]@);
                assert(sorted.contains(keys@[j]@));
                let k = choose|k: int| 0 <= k < all@.len() && (#[trigger] all@[k])@ == keys@[j]@;
                assert(self.entries@.dom().contains(all@[k].id()));
            }
        }
        let mut res: Vec<(String, u64)> = Vec::new();
        let mut at: usize = 0;
        while at < keys.len()
            invariant
                self.wf(),
                at <= keys.len(),
                res@.len() == at,
                forall|j: int|
                    0 <= j < keys@.len() ==> self.entries@.dom().contains((#[trigger] keys@[j])@),
                forall|j: int|
                    0 <= j < at ==> (#[trigger] res@[j]).0@ == keys@[j]@ && res@[j].1
                        == self.entries@[keys@[j]@].generation,
            decreases keys.len() - at,
        {
            let generation: u64 = match self.entries.get(&keys[at]) {
                Some(entry) => entry.generation,
                None => 0,
            };
            res.push((keys[at].clone(), generation));
            at += 1;
        }
        proof {
            let signature = parts_view(res@);
            assert(signature.map_values(|part: (Seq<char>, u64)| part.0) =~= sorted);
            assert forall|i: int| 0 <= i < signature.len() implies {
                let (key, generation) = #[trigger] signature[i];
                &&& self.entries@.dom().contains(key)
                &&& starts_with(key, owner_prefix@)
                &&& self.entries@[key].generation == generation
            } by {
                assert(signature[i] == (res@[i].0@, res@[i].1));
                assert(res@[i].0@ == keys@[i]@);
            }
            assert forall|key: Seq<char>| #[trigger] self.entries@.dom().contains(key)
                && starts_with(key, owner_prefix@) implies signature.contains(
                (key, self.entries@[key].generation),
            ) by {
                let k = choose|k: int| 0 <= k < all@.len() && (#[trigger] all@[k]).id() == key;
                assert(all@[k]@ == key);
                assert(sorted.contains(key));
                let i = choose|i: int| 0 <= i < sorted.len() && sorted[i] == key;
                assert(keys@[i]@ == key);
                assert(res@[i].0@ == key);
                assert(signature[i] == (key, self.entries@[key].generation));
            }
        }
        res
    }

    /// The motions that belong to a message: its own, and those of its thinking and its tools.
    pub fn message_signature(&self, id: &str) -> (res: MessageSignature)
        requires
            self.wf(),
        ensures
            is_signature(self.entries@, "ai:"@ + id@ + ":"@, parts_view(res.own@)),
            is_signature(self.entries@, "ai:"@ + id@ + "-thinking-"@, parts_view(res.thinking@)),
            is_signature(self.entries@, "ai:"@ + id@ + "-tools-"@, parts_view(res.tools@)),
    {
        let start = text::joined("ai:", id);
        MessageSignature {
            own: self.signature(text::joined(start.as_str(), ":").as_str()),
            thinking: self.signature(text::joined(start.as_str(), "-thinking-").as_str()),
            tools: self.signature(text::joined(start.as_str(), "-tools-").as_str()),
        }
    }

    pub fn clear(&mut self)
        ensures
            final(self).wf(),
            final(self).generation == old(self).generation,
            final(self).entries@ == Map::<Seq<char>, DisclosureTransition>::empty(),
    {
        self.entries.clear();
    }
}

/// The motions that belong to a message.
pub struct MessageSignature {
    pub own: Vec<(String, u64)>,
    pub thinking: Vec<(String, u64)>,
    pub tools: Vec<(String, u64)>,
}

impl MessageSignature {
    /// Whether nothing of a message moves.
    pub fn is_still(&self) -> (res: bool)
        ensures
            res == (self.own@.len() == 0 && self.thinking@.len() == 0 && self.tools@.len() == 0),
    {
        self.own.len() == 0 && self.thinking.len() == 0 && self.tools.len() == 0
    }
}

/// The timer of a motion that another one took over from ends nothing.
pub proof fn law_stale_timers_end_nothing(
    before: DisclosureMotions,
    after: DisclosureMotions,
    key: Seq<char>,
    expanded: bool,
    generation: u64,
)
    requires
        after.begun(before, key, expanded),
        before.is_under_way(key, generation),
        generation != before.next_generation(),
    ensures
        !after.is_under_way(key, generation),
        after.is_under_way(key, after.generation),
{
}

/// A motion puts only what belongs to its owner out of date.
pub proof fn law_motions_concern_their_owner(
    before: DisclosureMotions,
    after: DisclosureMotions,
    key: Seq<char>,
    expanded: bool,
    prefix: Seq<char>,
    signature: Seq<(Seq<char>, u64)>,
)
    requires
        after.begun(before, key, expanded),
        !starts_with(key, prefix),
        is_signature(before.entries@, prefix, signature),
    ensures
        is_signature(after.entries@, prefix, signature),
{
}

/// What is open, and what moves.
pub struct Disclosures {
    pub motion_enabled: bool,
    pub motions: DisclosureMotions,
    pub thinking: Table<String, bool>,
    pub tools: Table<String, ()>,
}

impl Disclosures {
    pub open spec fn wf(self) -> bool {
        self.motions.wf() && self.thinking.wf() && self.tools.wf()
    }

    /// Nothing was opened or closed yet.
    pub open spec fn is_new(self, motion_enabled: bool) -> bool {
        &&& self.motion_enabled == motion_enabled
        &&& self.motions.generation == 0
        &&& self.motions.entries@ == Map::<Seq<char>, DisclosureTransition>::empty()
        &&& self.thinking@ == Map::<Seq<char>, bool>::empty()
        &&& self.tools@ == Map::<Seq<char>, ()>::empty()
    }

    pub fn new(motion_enabled: bool) -> (res: Disclosures)
        ensures
            res.wf(),
            res.is_new(motion_enabled),
    {
        Disclosures {
            motion_enabled,
            motions: DisclosureMotions::new(),
            thinking: Table::new(),
            tools: Table::new(),
        }
    }

    /// Whether a message's thinking is shown.
    pub open spec fn shows_thinking(self, key: Seq<char>, default_expanded: bool) -> bool {
        if self.thinking@.dom().contains(key) {
            self.thinking@[key]
        } else {
            default_expanded
        }
    }

    /// A section started to move. Without motion it is in place at once.
    pub open spec fn moved(
        motion_enabled: bool,
        before: DisclosureMotions,
        after: DisclosureMotions,
        key: Seq<char>,
        expanded: bool,
        timer: Option<DisclosureTimer>,
    ) -> bool {
        if motion_enabled {
            &&& after.begun(before, key, expanded)
            &&& timer is Some
            &&& timer->0.key@ == key
            &&& timer->0.generation == after.generation
            &&& timer->0.start == before.start_of(key, expanded)
        } else {
            &&& timer is None
            &&& after.generation == before.generation
            &&& after.entries@ == before.entries@.remove(key)
        }
    }

    /// Starts to open or close a section.
    pub fn begin_disclosure_motion(&mut self, key: String, expanded: bool) -> (res: Option<DisclosureTimer>)
        requires
            old(self).wf(),
        ensures
            final(self).wf(),
            *final(self) == (Disclosures { motions: final(self).motions, ..*old(self) }),
            Self::moved(
                old(self).motion_enabled,
                old(self).motions,
                final(self).motions,
                key@,
                expanded,
                res,
            ),
    {
        if !self.motion_enabled {
            self.motions.entries.remove(&key);
            return None;
        }
        Some(self.motions.begin(key, expanded))
    }
}

impl WorkspaceApp {
    /// Opens or closes a message's thinking.
    pub fn toggle_ai_thinking_with_motion(&mut self, key: String, default_expanded: bool) -> (res: Option<
        DisclosureTimer,
    >)
        requires
            old(self).disclosures.wf(),
        ensures
            final(self).disclosures.wf(),
            *final(self) == (WorkspaceApp { disclosures: final(self).disclosures, ..*old(self) }),
            ({
                let before = old(self).disclosures;
                let after = final(self).disclosures;
                let expanded = !before.shows_thinking(key@, default_expanded);
                &&& after == (Disclosures { thinking: after.thinking, motions: after.motions, ..before })
                &&& after.thinking@ == before.thinking@.insert(key@, expanded)
                &&& Disclosures::moved(
                    before.motion_enabled,
                    before.motions,
                    after.motions,
                    "ai:"@ + key@ + ":thinking"@,
                    expanded,
                    res,
                )
            }),
    {
        let shown = match self.disclosures.thinking.get(&key) {
            Some(shown) => *shown,
            None => default_expanded,
        };
        self.disclosures.thinking.insert(key.clone(), !shown);
        let motion = text::joined(text::joined("ai:", key.as_str()).as_str(), ":thinking");
        self.disclosures.begin_disclosure_motion(motion, !shown)
    }

    /// Opens or closes a tool call.
    pub fn toggle_ai_tool_with_motion(&mut self, key: String) -> (res: Option<DisclosureTimer>)
        requires
            old(self).disclosures.wf(),
        ensures
            final(self).disclosures.wf(),
            *final(self) == (WorkspaceApp { disclosures: final(self).disclosures, ..*old(self) }),
            ({
                let before = old(self).disclosures;
                let after = final(self).disclosures;
                let expanded = !before.tools@.dom().contains(key@);
                &&& after == (Disclosures { tools: after.tools, motions: after.motions, ..before })
                &&& after.tools@ == if expanded {
                    before.tools@.insert(key@, ())
                } else {
                    before.tools@.remove(key@)
                }
                &&& Disclosures::moved(
                    before.motion_enabled,
                    before.motions,
                    after.motions,
                    "ai:"@ + key@ + ":tool"@,
                    expanded,
                    res,
                )
            }),
    {
        let expanded = !self.disclosures.tools.contains(&key);
        if expanded {
            self.disclosures.tools.insert(key.clone(), ());
        } else {
            self.disclosures.tools.remove(&key);
        }
        let motion = text::joined(text::joined("ai:", key.as_str()).as_str(), ":tool");
        self.disclosures.begin_disclosure_motion(motion, expanded)
    }
}

} // verus!
