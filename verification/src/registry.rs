//! Snapshot reconciliation: merging the pane stream and the tab stream.
//!
//! The host pushes two independent full snapshots: on every pane change, all
//! panes grouped by owning tab; on every tab change, the full tab list. A
//! pane snapshot fully replaces the merged view, pairing each pane with a
//! placeholder tab record until real tab data arrives; a tab snapshot
//! patches matching records in place and never adds or removes panes.

use vstd::prelude::*;
use vstd::string::StringExecFns;
use crate::decimal::append_decimal;
use crate::decimal::decimal_digits;

verus! {

/// What the library reads of one pane in a pane snapshot: its host-assigned
/// identity, its title, and whether the host reports it focused.
#[derive(Debug)]
pub struct PaneInfo {
    pub id: u32,
    pub title: String,
    pub is_focused: bool,
}

/// Mathematical image of a `PaneInfo`.
pub struct PaneInfoView {
    pub id: u32,
    pub title: Seq<char>,
    pub is_focused: bool,
}

impl View for PaneInfo {
    type V = PaneInfoView;

    open spec fn view(&self) -> PaneInfoView {
        PaneInfoView { id: self.id, title: self.title@, is_focused: self.is_focused }
    }
}

/// What the library reads of one tab in a tab snapshot: its ordinal slot,
/// its display name, and whether it is the active tab.
#[derive(Debug)]
pub struct TabInfo {
    pub position: usize,
    pub name: String,
    pub active: bool,
}

/// Mathematical image of a `TabInfo`.
pub struct TabInfoView {
    pub position: usize,
    pub name: Seq<char>,
    pub active: bool,
}

impl View for TabInfo {
    type V = TabInfoView;

    open spec fn view(&self) -> TabInfoView {
        TabInfoView { position: self.position, name: self.name@, active: self.active }
    }
}

/// One merged record: a pane together with the tab it currently belongs to.
#[derive(Debug)]
pub struct Pane {
    pub pane_info: PaneInfo,
    pub tab_info: TabInfo,
}

/// Mathematical image of a merged record.
pub struct PaneView {
    pub pane_info: PaneInfoView,
    pub tab_info: TabInfoView,
}

impl View for Pane {
    type V = PaneView;

    open spec fn view(&self) -> PaneView {
        PaneView { pane_info: self.pane_info@, tab_info: self.tab_info@ }
    }
}

/// The merged pane/tab view together with the focus bookkeeping.
///
/// `focused_pane_id` follows the most recent pane snapshot that reported a
/// focused pane; `target_pane_id` is the focus captured the same way and is
/// the pane a later confirmation acts upon.
#[derive(Debug)]
pub struct SnapshotRegistry {
    pub panes: Vec<Pane>,
    pub focused_pane_id: Option<u32>,
    pub target_pane_id: Option<u32>,
}

/// Mathematical image of the registry.
pub struct RegistryView {
    pub panes: Seq<PaneView>,
    pub focused: Option<u32>,
    pub target: Option<u32>,
}

/// The images of a sequence of merged records.
pub open spec fn records_view(records: Seq<Pane>) -> Seq<PaneView> {
    records.map_values(|p: Pane| p@)
}

impl View for SnapshotRegistry {
    type V = RegistryView;

    open spec fn view(&self) -> RegistryView {
        RegistryView {
            panes: records_view(self.panes@),
            focused: self.focused_pane_id,
            target: self.target_pane_id,
        }
    }
}

/// The synthesized name of a placeholder tab record for slot `position`.
pub open spec fn placeholder_name(position: nat) -> Seq<char> {
    "Tab "@ + decimal_digits(position)
}

/// The placeholder tab record paired with every pane of a pane snapshot
/// until a tab snapshot arrives: name synthesized from the slot, flags
/// defaulted.
pub open spec fn placeholder_tab(position: usize) -> TabInfoView {
    TabInfoView { position, name: placeholder_name(position as nat), active: false }
}

/// The merged records produced from one group of a pane snapshot: each pane
/// of the group, in order, paired with the group's placeholder tab.
pub open spec fn group_records(position: usize, panes: Seq<PaneInfoView>) -> Seq<PaneView>
    decreases panes.len(),
{
    if panes.len() == 0 {
        Seq::empty()
    } else {
        group_records(position, panes.drop_last()).push(
            PaneView { pane_info: panes.last(), tab_info: placeholder_tab(position) },
        )
    }
}

/// The merged records produced from a whole pane snapshot: the groups
/// flattened in arrival order.
pub open spec fn snapshot_records(groups: Seq<(usize, Seq<PaneInfoView>)>) -> Seq<PaneView>
    decreases groups.len(),
{
    if groups.len() == 0 {
        Seq::empty()
    } else {
        snapshot_records(groups.drop_last()) + group_records(
            groups.last().0,
            groups.last().1,
        )
    }
}

/// The identity of the last record a snapshot flags focused, if any.
pub open spec fn last_focus(records: Seq<PaneView>) -> Option<u32>
    decreases records.len(),
{
    if records.len() == 0 {
        None
    } else if records.last().pane_info.is_focused {
        Some(records.last().pane_info.id)
    } else {
        last_focus(records.drop_last())
    }
}

/// The focus bookkeeping after a pane snapshot: the snapshot's focused pane
/// where it reports one, otherwise the previous value retained.
pub open spec fn focus_after(records: Seq<PaneView>, prev: Option<u32>) -> Option<u32> {
    match last_focus(records) {
        Some(id) => Some(id),
        None => prev,
    }
}

/// The image of a grouped pane snapshot argument.
pub open spec fn groups_view(groups: Seq<(usize, Vec<PaneInfo>)>) -> Seq<
    (usize, Seq<PaneInfoView>),
> {
    groups.map_values(|g: (usize, Vec<PaneInfo>)| (g.0, g.1@.map_values(|p: PaneInfo| p@)))
}

/// The whole registry after a pane snapshot: the merged view fully
/// replaced, focus and target recaptured where the snapshot reports focus.
pub open spec fn pane_snapshot_applied(
    before: RegistryView,
    groups: Seq<(usize, Seq<PaneInfoView>)>,
) -> RegistryView {
    RegistryView {
        panes: snapshot_records(groups),
        focused: focus_after(snapshot_records(groups), before.focused),
        target: focus_after(snapshot_records(groups), before.target),
    }
}

/// The last tab of a tab snapshot occupying slot `position`, if any.
pub open spec fn last_matching_tab(tabs: Seq<TabInfoView>, position: usize) -> Option<
    TabInfoView,
>
    decreases tabs.len(),
{
    if tabs.len() == 0 {
        None
    } else if tabs.last().position == position {
        Some(tabs.last())
    } else {
        last_matching_tab(tabs.drop_last(), position)
    }
}

/// One merged record after a tab snapshot: its tab field replaced by the
/// last incoming tab of the same slot, or left untouched if none matches.
/// The pane field is never touched by a tab snapshot.
pub open spec fn patched_record(rec: PaneView, tabs: Seq<TabInfoView>) -> PaneView {
    match last_matching_tab(tabs, rec.tab_info.position) {
        Some(t) => PaneView { pane_info: rec.pane_info, tab_info: t },
        None => rec,
    }
}

/// The image of a tab snapshot argument.
pub open spec fn tabs_view(tabs: Seq<TabInfo>) -> Seq<TabInfoView> {
    tabs.map_values(|t: TabInfo| t@)
}

/// The whole registry after a tab snapshot: every record patched in place,
/// no record added or removed, focus and target untouched.
pub open spec fn tab_snapshot_applied(before: RegistryView, tabs: Seq<TabInfoView>) -> RegistryView {
    RegistryView {
        panes: before.panes.map_values(|r: PaneView| patched_record(r, tabs)),
        focused: before.focused,
        target: before.target,
    }
}

/// An empty registry: no merged records, no focus, no target.
pub open spec fn empty_registry() -> RegistryView {
    RegistryView { panes: Seq::empty(), focused: None, target: None }
}

/// Build the placeholder tab record for slot `position`.
pub fn placeholder_tab_info(position: usize) -> (r: TabInfo)
    ensures
        r@ == placeholder_tab(position),
{
    proof {
        reveal_strlit("Tab ");
    }
    let mut name = String::from_str("Tab ");
    append_decimal(&mut name, position as u64);
    TabInfo { position, name, active: false }
}

impl SnapshotRegistry {
    /// The registry as it stands at plugin load: empty.
    pub fn new() -> (r: SnapshotRegistry)
        ensures
            r@ == empty_registry(),
    {
        let r = SnapshotRegistry { panes: Vec::new(), focused_pane_id: None, target_pane_id: None };
        proof {
            assert(r@.panes =~= empty_registry().panes);
        }
        r
    }

    /// A new pane snapshot arrived: discard every merged record and rebuild
    /// the whole view from the snapshot, pairing each pane with a
    /// placeholder tab; capture the snapshot's focused pane as both the
    /// focused and the target pane, retaining the previous values when the
    /// snapshot reports no focus.
    pub fn apply_pane_snapshot(&mut self, groups: &Vec<(usize, Vec<PaneInfo>)>)
        ensures
            final(self)@ == pane_snapshot_applied(old(self)@, groups_view(groups@)),
    {
        let ghost gv = groups_view(groups@);
        let ghost prev_focused = self.focused_pane_id;
        let ghost prev_target = self.target_pane_id;
        self.panes.clear();
        proof {
            assert(records_view(self.panes@) =~= snapshot_records(gv.take(0)));
        }
        let mut i: usize = 0;
        while i < groups.len()
            invariant
                i <= groups.len(),
                gv == groups_view(groups@),
                gv.len() == groups.len(),
                records_view(self.panes@) == snapshot_records(gv.take(i as int)),
                self.focused_pane_id == focus_after(snapshot_records(gv.take(i as int)), prev_focused),
                self.target_pane_id == focus_after(snapshot_records(gv.take(i as int)), prev_target),
            decreases groups.len() - i,
        {
            let position = groups[i].0;
            proof {
                assert(gv[i as int].0 == position);
                assert(gv[i as int].1 == groups@[i as int].1@.map_values(|p: PaneInfo| p@));
                assert(records_view(self.panes@) =~= snapshot_records(gv.take(i as int))
                    + group_records(position, gv[i as int].1.take(0)));
            }
            let mut j: usize = 0;
            while j < groups[i].1.len()
                invariant
                    i < groups.len(),
                    j <= groups@[i as int].1@.len(),
                    gv == groups_view(groups@),
                    gv.len() == groups.len(),
                    position == gv[i as int].0,
                    gv[i as int].1 == groups@[i as int].1@.map_values(|p: PaneInfo| p@),
                    gv[i as int].1.len() == groups@[i as int].1@.len(),
                    records_view(self.panes@) == snapshot_records(gv.take(i as int))
                        + group_records(position, gv[i as int].1.take(j as int)),
                    self.focused_pane_id == focus_after(records_view(self.panes@), prev_focused),
                    self.target_pane_id == focus_after(records_view(self.panes@), prev_target),
                decreases groups@[i as int].1@.len() - j,
            {
                let entry = &groups[i].1[j];
                if entry.is_focused {
                    self.focused_pane_id = Some(entry.id);
                    self.target_pane_id = Some(entry.id);
                }
                let record = Pane {
                    pane_info: PaneInfo {
                        id: entry.id,
                        title: entry.title.clone(),
                        is_focused: entry.is_focused,
                    },
                    tab_info: placeholder_tab_info(position),
                };
                proof {
                    assert(record@ == (PaneView {
                        pane_info: gv[i as int].1[j as int],
                        tab_info: placeholder_tab(position),
                    }));
                }
                let ghost before = records_view(self.panes@);
                self.panes.push(record);
                proof {
                    assert(records_view(self.panes@) =~= before.push(record@));
                    assert(gv[i as int].1.take(j + 1).drop_last() =~= gv[i as int].1.take(j as int));
                    assert(gv[i as int].1.take(j + 1).last() == gv[i as int].1[j as int]);
                    assert(group_records(position, gv[i as int].1.take(j + 1))
                        == group_records(position, gv[i as int].1.take(j as int)).push(
                            PaneView {
                                pane_info: gv[i as int].1[j as int],
                                tab_info: placeholder_tab(position),
                            },
                        ));
                    assert(records_view(self.panes@) =~= snapshot_records(gv.take(i as int))
                        + group_records(position, gv[i as int].1.take(j + 1)));
                    assert(records_view(self.panes@).last() == record@);
                    assert(records_view(self.panes@).drop_last() =~= before);
                }
                j = j + 1;
            }
            proof {
                assert(gv[i as int].1.take(j as int) =~= gv[i as int].1);
                assert(gv.take(i + 1).drop_last() =~= gv.take(i as int));
                assert(gv.take(i + 1).last() == gv[i as int]);
                assert(snapshot_records(gv.take(i + 1)) == snapshot_records(gv.take(i as int))
                    + group_records(gv[i as int].0, gv[i as int].1));
                assert(records_view(self.panes@) == snapshot_records(gv.take(i + 1)));
            }
            i = i + 1;
        }
        proof {
            assert(gv.take(i as int) =~= gv);
        }
    }

    /// A new tab snapshot arrived: patch every merged record whose tab slot
    /// a tab of the snapshot occupies, in snapshot order, so the last
    /// matching tab wins; records of unmatched slots, the pane fields, the
    /// focus and the target are untouched, and no record is added or
    /// removed. A tab with no matching record is a no-op.
    pub fn apply_tab_snapshot(&mut self, tabs: &Vec<TabInfo>)
        ensures
            final(self)@ == tab_snapshot_applied(old(self)@, tabs_view(tabs@)),
    {
        let ghost tv = tabs_view(tabs@);
        let ghost orig = records_view(self.panes@);
        let ghost prev_focused = self.focused_pane_id;
        let ghost prev_target = self.target_pane_id;
        let mut i: usize = 0;
        while i < tabs.len()
            invariant
                i <= tabs.len(),
                tv == tabs_view(tabs@),
                tv.len() == tabs.len(),
                self.panes@.len() == orig.len(),
                forall|k: int|
                    0 <= k < orig.len() ==> #[trigger] records_view(self.panes@)[k]
                        == patched_record(orig[k], tv.take(i as int)),
                self.focused_pane_id == prev_focused,
                self.target_pane_id == prev_target,
            decreases tabs.len() - i,
        {
            let mut j: usize = 0;
            while j < self.panes.len()
                invariant
                    i < tabs.len(),
                    j <= self.panes@.len(),
                    tv == tabs_view(tabs@),
                    tv.len() == tabs.len(),
                    tv[i as int] == tabs@[i as int]@,
                    self.panes@.len() == orig.len(),
                    forall|k: int|
                        0 <= k < j ==> #[trigger] records_view(self.panes@)[k]
                            == patched_record(orig[k], tv.take(i + 1)),
                    forall|k: int|
                        j <= k < orig.len() ==> #[trigger] records_view(self.panes@)[k]
                            == patched_record(orig[k], tv.take(i as int)),
                    self.focused_pane_id == prev_focused,
                    self.target_pane_id == prev_target,
                decreases self.panes@.len() - j,
            {
                proof {
                    assert(records_view(self.panes@)[j as int] == self.panes@[j as int]@);
                    lemma_last_matching_position(
                        tv.take(i as int),
                        orig[j as int].tab_info.position,
                    );
                    assert(tv.take(i + 1).drop_last() =~= tv.take(i as int));
                    assert(tv.take(i + 1).last() == tv[i as int]);
                }
                if self.panes[j].tab_info.position == tabs[i].position {
                    let replacement = {
                        let current = &self.panes[j];
                        Pane {
                            pane_info: PaneInfo {
                                id: current.pane_info.id,
                                title: current.pane_info.title.clone(),
                                is_focused: current.pane_info.is_focused,
                            },
                            tab_info: TabInfo {
                                position: tabs[i].position,
                                name: tabs[i].name.clone(),
                                active: tabs[i].active,
                            },
                        }
                    };
                    proof {
                        assert(replacement@ == (PaneView {
                            pane_info: self.panes@[j as int]@.pane_info,
                            tab_info: tv[i as int],
                        }));
                    }
                    let ghost before = self.panes@;
                    self.panes[j] = replacement;
                    proof {
                        assert(self.panes@ == before.update(j as int, replacement));
                        assert forall|k: int| 0 <= k < orig.len() && k != j implies
                            #[trigger] records_view(self.panes@)[k] == records_view(before)[k] by {
                            assert(self.panes@[k] == before[k]);
                        }
                        assert(records_view(self.panes@)[j as int] == replacement@);
                        assert(patched_record(orig[j as int], tv.take(i + 1)) == replacement@);
                    }
                } else {
                    proof {
                        assert(patched_record(orig[j as int], tv.take(i + 1))
                            == patched_record(orig[j as int], tv.take(i as int)));
                    }
                }
                j = j + 1;
            }
            i = i + 1;
        }
        proof {
            assert(tv.take(i as int) =~= tv);
            assert(records_view(self.panes@) =~= old(self)@.panes.map_values(
                |r: PaneView| patched_record(r, tv),
            ));
        }
    }

    /// Linear scan for the merged record of pane `pane_id`; absence is an
    /// expected outcome (the pane may have closed since the last snapshot),
    /// not an error.
    pub fn lookup(&self, pane_id: u32) -> (r: Option<&Pane>)
        ensures
            match r {
                Some(p) => lookup_spec(self@.panes, pane_id) == Some(p@),
                None => lookup_spec(self@.panes, pane_id) is None,
            },
    {
        let mut j: usize = 0;
        proof {
            assert(records_view(self.panes@).skip(0) =~= records_view(self.panes@));
        }
        while j < self.panes.len()
            invariant
                j <= self.panes@.len(),
                lookup_spec(records_view(self.panes@), pane_id) == lookup_spec(
                    records_view(self.panes@).skip(j as int),
                    pane_id,
                ),
            decreases self.panes@.len() - j,
        {
            proof {
                let rv = records_view(self.panes@);
                assert(rv.skip(j as int).first() == rv[j as int]);
                assert(rv[j as int] == self.panes@[j as int]@);
                assert(rv.skip(j as int).drop_first() =~= rv.skip(j + 1));
            }
            if self.panes[j].pane_info.id == pane_id {
                return Some(&self.panes[j]);
            }
            j = j + 1;
        }
        proof {
            assert(records_view(self.panes@).skip(j as int).len() == 0);
        }
        None
    }

    /// The pane the most recent focus-reporting pane snapshot flagged.
    pub fn focused(&self) -> (r: Option<u32>)
        ensures
            r == self@.focused,
    {
        self.focused_pane_id
    }

    /// The pane a confirmation would act upon: the focus captured at the
    /// moment of the most recent pane snapshot.
    pub fn target(&self) -> (r: Option<u32>)
        ensures
            r == self@.target,
    {
        self.target_pane_id
    }

    /// The one line of text the presentation layer shows: the focused
    /// pane's merged record where one is known, a bare identity where the
    /// pane vanished from the snapshots, and a fixed notice where no focus
    /// was ever reported.
    pub fn render_text(&self) -> (r: String)
        ensures
            r@ == render_text_spec(self@),
    {
        match self.focused_pane_id {
            None => {
                String::from_str("No current pane selected")
            },
            Some(pane_id) => {
                match self.lookup(pane_id) {
                    Some(p) => {
                        let mut line = String::from_str("Pane ID: ");
                        append_decimal(&mut line, p.pane_info.id as u64);
                        line.append(" | Tab: ");
                        line.append(p.tab_info.name.as_str());
                        line.append(" | Title: ");
                        line.append(p.pane_info.title.as_str());
                        proof {
                            assert(line@ =~= merged_line_text(p@));
                        }
                        line
                    },
                    None => {
                        let mut line = String::from_str("Pane ID: ");
                        append_decimal(&mut line, pane_id as u64);
                        line
                    },
                }
            },
        }
    }
}

/// The tab that `last_matching_tab` finds occupies the slot it was
/// searched for.
pub proof fn lemma_last_matching_position(tabs: Seq<TabInfoView>, position: usize)
    ensures
        match last_matching_tab(tabs, position) {
            Some(t) => t.position == position,
            None => true,
        },
    decreases tabs.len(),
{
    if tabs.len() > 0 && tabs.last().position != position {
        lemma_last_matching_position(tabs.drop_last(), position);
    }
}

/// The first merged record carrying `pane_id`, if any.
pub open spec fn lookup_spec(records: Seq<PaneView>, pane_id: u32) -> Option<PaneView>
    decreases records.len(),
{
    if records.len() == 0 {
        None
    } else if records.first().pane_info.id == pane_id {
        Some(records.first())
    } else {
        lookup_spec(records.drop_first(), pane_id)
    }
}

/// `lookup_spec` comes back empty exactly when no record carries the
/// identity, and what it finds is a record of the sequence carrying it.
pub proof fn lemma_lookup_spec(records: Seq<PaneView>, pane_id: u32)
    ensures
        (lookup_spec(records, pane_id) is None) <==> (forall|k: int|
            0 <= k < records.len() ==> (#[trigger] records[k]).pane_info.id != pane_id),
        match lookup_spec(records, pane_id) {
            Some(rec) => rec.pane_info.id == pane_id && exists|k: int|
                0 <= k < records.len() && records[k] == rec,
            None => true,
        },
    decreases records.len(),
{
    if records.len() > 0 {
        lemma_lookup_spec(records.drop_first(), pane_id);
        if records.first().pane_info.id != pane_id {
            if lookup_spec(records, pane_id) is None {
                assert forall|k: int| 0 <= k < records.len() implies (#[trigger] records[k])
                    .pane_info.id != pane_id by {
                    if k > 0 {
                        assert(records[k] == records.drop_first()[k - 1]);
                    }
                }
            } else {
                let rec = lookup_spec(records.drop_first(), pane_id)->Some_0;
                let k = choose|k: int|
                    0 <= k < records.drop_first().len() && records.drop_first()[k] == rec;
                assert(records[k + 1] == rec);
            }
        }
    }
}

/// The fixed notice shown while no pane snapshot has reported a focus.
pub open spec fn no_focus_text() -> Seq<char> {
    "No current pane selected"@
}

/// The line shown when the focused pane has no merged record any more.
pub open spec fn bare_line_text(pane_id: u32) -> Seq<char> {
    "Pane ID: "@ + decimal_digits(pane_id as nat)
}

/// The line shown for a focused pane with a merged record.
pub open spec fn merged_line_text(rec: PaneView) -> Seq<char> {
    "Pane ID: "@ + decimal_digits(rec.pane_info.id as nat) + " | Tab: "@ + rec.tab_info.name
        + " | Title: "@ + rec.pane_info.title
}

/// Which text the registry hands the presentation layer.
pub open spec fn render_text_spec(r: RegistryView) -> Seq<char> {
    match r.focused {
        None => no_focus_text(),
        Some(pane_id) => match lookup_spec(r.panes, pane_id) {
            Some(rec) => merged_line_text(rec),
            None => bare_line_text(pane_id),
        },
    }
}

} // verus!
