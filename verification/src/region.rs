//! Canonical domain state: the 27 regions, their status overlay, the derived
//! display list, and the selection the list views navigate.
//!
//! All mutation goes through the controller, one action at a time; readers
//! always see a fully applied status merge because every merge happens in a
//! single exclusive borrow.

use vstd::prelude::*;

verus! {

use crate::status::{
    AlertStatus,
    AlertStatusString,
    REGION_COUNT,
    normalize_statuses,
    status_of_char,
    trim_quotes,
};

/// One administrative unit, ordinal-indexed into every 27-element container.
pub struct Region {
    /// Identifier matched against the feed's region-id field.
    pub id: i8,
    /// Secondary administrative identifier.
    pub a_id: i8,
    /// External map identifier.
    pub osm_id: i64,
    /// Serialized geometry reference.
    pub geo: String,
    /// Display name.
    pub name: String,
    /// Romanized display name.
    pub name_en: String,
    /// Current alert status; mutated only by the status merges.
    pub status: AlertStatus,
}

impl Clone for Region {
    fn clone(&self) -> (r: Self)
        ensures
            r == *self,
    {
        Region {
            id: self.id,
            a_id: self.a_id,
            osm_id: self.osm_id,
            geo: self.geo.clone(),
            name: self.name.clone(),
            name_en: self.name_en.clone(),
            status: self.status,
        }
    }
}

/// The same region with only its status replaced.
pub open spec fn with_status(r: Region, st: AlertStatus) -> Region {
    Region {
        id: r.id,
        a_id: r.a_id,
        osm_id: r.osm_id,
        geo: r.geo,
        name: r.name,
        name_en: r.name_en,
        status: st,
    }
}

/// One structured alert record from the feed's full alert listing.
pub struct Alert {
    pub id: i32,
    pub location_title: String,
    pub location_type: String,
    pub started_at: String,
    pub finished_at: Option<String>,
    pub updated_at: String,
    pub alert_type: String,
    pub location_oblast: String,
    pub location_uid: String,
    pub notes: Option<String>,
    pub country: Option<String>,
    pub calculated: Option<bool>,
    pub location_oblast_uid: Option<i32>,
}

/// Whether one alert record targets the region with the given identifier.
pub open spec fn alert_matches(a: Alert, id: i8) -> bool {
    a.location_oblast_uid == Some(id as i32)
}

/// Whether any record of the list targets the region with the given
/// identifier.
pub open spec fn any_alert_matches(alerts: Seq<Alert>, id: i8) -> bool {
    exists|k: int| 0 <= k < alerts.len() && alert_matches(alerts[k], id)
}

/// The status a structured alert list assigns to a region: active when some
/// record targets it, otherwise cleared.
pub open spec fn alerts_status(alerts: Seq<Alert>, id: i8) -> AlertStatus {
    if any_alert_matches(alerts, id) {
        AlertStatus::A
    } else {
        AlertStatus::N
    }
}

/// The region sequence after a full status-string merge: ordinal `i` takes
/// the status the `i`-th code stands for.
pub open spec fn apply_status_spec(regions: Seq<Region>, codes: Seq<char>) -> Seq<Region> {
    Seq::new(regions.len(), |i: int| with_status(regions[i], status_of_char(codes[i])))
}

/// The region sequence after a full structured-alert merge: every region is
/// set from the list alone, so a region absent from it is cleared.
pub open spec fn apply_alerts_spec(regions: Seq<Region>, alerts: Seq<Alert>) -> Seq<Region> {
    Seq::new(regions.len(), |i: int| with_status(regions[i], alerts_status(alerts, regions[i].id)))
}

/// Display emphasis of one list line.
#[derive(Clone, Copy, PartialEq, Eq, Structural, Debug)]
pub enum LineStyle {
    /// Active alert: highlighted, with the alert marker.
    Alert,
    /// Partially active alert: marker color.
    Marker,
    /// No alert: plain text.
    Plain,
}

/// The emphasis a status is displayed with.
pub open spec fn style_of(st: AlertStatus) -> LineStyle {
    match st {
        AlertStatus::A => LineStyle::Alert,
        AlertStatus::P => LineStyle::Marker,
        AlertStatus::N => LineStyle::Plain,
    }
}

/// One derived display line of the region list.
pub struct ListLine {
    /// Region ordinal the line stands for.
    pub index: usize,
    /// Region display name.
    pub name: String,
    /// Per-status display emphasis.
    pub style: LineStyle,
}

impl Clone for ListLine {
    fn clone(&self) -> (r: Self)
        ensures
            r == *self,
    {
        ListLine { index: self.index, name: self.name.clone(), style: self.style }
    }
}

/// The display line a region yields at a given ordinal.
pub open spec fn list_line_of_region(i: int, r: Region) -> ListLine {
    ListLine { index: i as usize, name: r.name, style: style_of(r.status) }
}

/// The derived display list of a region sequence, ordinal by ordinal.
pub open spec fn list_items_spec(regions: Seq<Region>) -> Seq<ListLine> {
    Seq::new(regions.len(), |i: int| list_line_of_region(i, regions[i]))
}

impl Region {
    /// The display line for this region at the given list position.
    pub fn to_list_item(&self, index: usize) -> (r: ListLine)
        ensures
            r == list_line_of_region(index as int, *self),
    {
        let style = match self.status {
            AlertStatus::A => LineStyle::Alert,
            AlertStatus::P => LineStyle::Marker,
            AlertStatus::N => LineStyle::Plain,
        };
        ListLine { index, name: self.name.clone(), style }
    }
}

#[verifier::external_type_specification]
#[verifier::external_body]
#[verifier::reject_recursive_types(T)]
pub struct ExArrayVec<T, const CAP: usize>(arrayvec::ArrayVec<T, CAP>);

/// The regions a fixed-capacity region vector holds, in order.
pub uninterp spec fn region_seq(v: arrayvec::ArrayVec<Region, 27>) -> Seq<Region>;

/// Relies on arrayvec::ArrayVec::new: a fresh vector is empty.
#[verifier::external_body]
fn rv_new() -> (r: arrayvec::ArrayVec<Region, 27>)
    ensures
        region_seq(r) == Seq::<Region>::empty(),
{
    arrayvec::ArrayVec::new()
}

/// Relies on arrayvec::ArrayVec::push: appends one element; strictly below
/// the capacity it cannot fail.
#[verifier::external_body]
fn rv_push(v: &mut arrayvec::ArrayVec<Region, 27>, r: Region)
    requires
        region_seq(*old(v)).len() < 27,
    ensures
        region_seq(*final(v)) == region_seq(*old(v)).push(r),
{
    v.push(r)
}

/// Relies on arrayvec's slice view for indexing.
#[verifier::external_body]
fn rv_get(v: &arrayvec::ArrayVec<Region, 27>, i: usize) -> (r: &Region)
    requires
        i < region_seq(*v).len(),
    ensures
        *r == region_seq(*v)[i as int],
{
    &v[i]
}

/// Relies on arrayvec's mutable slice view: writes one element's status
/// field in place.
#[verifier::external_body]
fn rv_set_status(v: &mut arrayvec::ArrayVec<Region, 27>, i: usize, st: AlertStatus)
    requires
        i < region_seq(*old(v)).len(),
    ensures
        region_seq(*final(v)) == region_seq(*old(v)).update(
            i as int,
            with_status(region_seq(*old(v))[i as int], st),
        ),
{
    v[i].status = st;
}

/// Ghost snapshot of everything observable about the store: the regions,
/// the derived list, and the selection state.
#[verifier::ext_equal]
pub struct StoreModel {
    pub regions: Seq<Region>,
    pub items: Seq<ListLine>,
    pub selection: Option<usize>,
    pub scroll: usize,
    pub last_selection: Option<usize>,
}

/// Failure of a store operation that the embedding shell treats as fatal.
#[derive(Clone, Copy, PartialEq, Eq, Structural, Debug)]
pub enum StoreError {
    /// A full region replacement did not supply exactly one region per
    /// ordinal.
    WrongRegionCount { expected: usize, actual: usize },
}

/// Canonical, mutation-serialized view of the 27 regions plus the derived
/// list and selection state.
pub struct RegionStore {
    regions: arrayvec::ArrayVec<Region, 27>,
    items: Vec<ListLine>,
    selected: Option<usize>,
    offset: usize,
    last_selected: Option<usize>,
}

impl RegionStore {
    /// The regions, in ordinal order.
    pub closed spec fn regions_view(&self) -> Seq<Region> {
        region_seq(self.regions)
    }

    /// The derived display list.
    pub closed spec fn items_view(&self) -> Seq<ListLine> {
        self.items@
    }

    /// The selected list index, when one is selected.
    pub closed spec fn selection(&self) -> Option<usize> {
        self.selected
    }

    /// The list scroll offset.
    pub closed spec fn scroll(&self) -> usize {
        self.offset
    }

    /// The index that was selected before the last clear, used to restore
    /// the cursor when navigation resumes.
    pub closed spec fn last_selection(&self) -> Option<usize> {
        self.last_selected
    }

    /// The store's observable state as one ghost snapshot.
    pub open spec fn model(&self) -> StoreModel {
        StoreModel {
            regions: self.regions_view(),
            items: self.items_view(),
            selection: self.selection(),
            scroll: self.scroll(),
            last_selection: self.last_selection(),
        }
    }

    /// Well-formed: exactly one region and one list line per ordinal, and
    /// every remembered index within range.
    pub open spec fn wf(&self) -> bool {
        &&& self.regions_view().len() == REGION_COUNT
        &&& self.items_view() == list_items_spec(self.regions_view())
        &&& (self.selection() matches Some(i) ==> i < REGION_COUNT)
        &&& (self.last_selection() matches Some(i) ==> i < REGION_COUNT)
    }

    /// Build the hydrated store: one region per ordinal, with the given
    /// status string already merged in, no selection, scroll at the top.
    pub fn new(regions: Vec<Region>, status: &AlertStatusString) -> (s: Self)
        requires
            regions@.len() == REGION_COUNT,
            status.wf(),
        ensures
            s.wf(),
            s.regions_view() == apply_status_spec(regions@, status@),
            s.selection() is None,
            s.last_selection() is None,
            s.scroll() == 0,
    {
        let mut rv = rv_new();
        let mut i: usize = 0;
        while i < REGION_COUNT
            invariant
                regions@.len() == REGION_COUNT,
                status.wf(),
                i <= REGION_COUNT,
                region_seq(rv) =~= apply_status_spec(regions@, status@).take(i as int),
            decreases REGION_COUNT - i,
        {
            let mut r = regions[i].clone();
            r.status = status.status_at(i);
            rv_push(&mut rv, r);
            i += 1;
        }
        assert(region_seq(rv) =~= apply_status_spec(regions@, status@));
        let items = build_items(&rv);
        RegionStore { regions: rv, items, selected: None, offset: 0, last_selected: None }
    }

    /// Full replacement of the region set, used at hydration; anything but
    /// exactly one region per ordinal is refused, and the store is left
    /// unchanged.
    pub fn replace_regions(&mut self, regions: Vec<Region>) -> (r: Result<(), StoreError>)
        ensures
            r is Ok <==> regions@.len() == REGION_COUNT,
            r is Ok ==> final(self).regions_view() == regions@ && final(self).items_view()
                == list_items_spec(regions@),
            r matches Err(e) ==> *final(self) == *old(self) && e == (StoreError::WrongRegionCount {
                expected: REGION_COUNT,
                actual: regions@.len() as usize,
            }),
            final(self).selection() == old(self).selection(),
            final(self).scroll() == old(self).scroll(),
            final(self).last_selection() == old(self).last_selection(),
            old(self).wf() ==> final(self).wf(),
    {
        if regions.len() != REGION_COUNT {
            return Err(StoreError::WrongRegionCount {
                expected: REGION_COUNT,
                actual: regions.len(),
            });
        }
        let mut rv = rv_new();
        let mut i: usize = 0;
        while i < REGION_COUNT
            invariant
                regions@.len() == REGION_COUNT,
                i <= REGION_COUNT,
                region_seq(rv) =~= regions@.take(i as int),
            decreases REGION_COUNT - i,
        {
            rv_push(&mut rv, regions[i].clone());
            i += 1;
        }
        assert(region_seq(rv) =~= regions@);
        self.items = build_items(&rv);
        self.regions = rv;
        Ok(())
    }

    /// Merge a decoded status string: ordinal `i` takes the status of code
    /// `i`, and the display list is recomputed to match. Readers never see
    /// the merge half done: it completes within this one exclusive borrow.
    pub fn apply_status(&mut self, status: &AlertStatusString)
        requires
            old(self).wf(),
            status.wf(),
        ensures
            final(self).wf(),
            final(self).regions_view() == apply_status_spec(old(self).regions_view(), status@),
            final(self).items_view() == list_items_spec(final(self).regions_view()),
            final(self).selection() == old(self).selection(),
            final(self).scroll() == old(self).scroll(),
            final(self).last_selection() == old(self).last_selection(),
    {
        let ghost regs0 = self.regions_view();
        let ghost target = apply_status_spec(regs0, status@);
        let mut i: usize = 0;
        while i < REGION_COUNT
            invariant
                status.wf(),
                regs0.len() == REGION_COUNT,
                target == apply_status_spec(regs0, status@),
                i <= REGION_COUNT,
                region_seq(self.regions).len() == REGION_COUNT,
                forall|j: int| 0 <= j < i ==> region_seq(self.regions)[j] == target[j],
                forall|j: int| i <= j < REGION_COUNT ==> region_seq(self.regions)[j] == regs0[j],
                self.selected == old(self).selected,
                self.offset == old(self).offset,
                self.last_selected == old(self).last_selected,
            decreases REGION_COUNT - i,
        {
            let st = status.status_at(i);
            rv_set_status(&mut self.regions, i, st);
            assert(target[i as int] == with_status(regs0[i as int], status_of_char(status@[i as int])));
            i += 1;
        }
        assert(region_seq(self.regions) =~= target);
        self.items = build_items(&self.regions);
    }

    /// Merge a structured alert list: every region's status is set from the
    /// list alone, so a region absent from it is cleared rather than left
    /// stale.
    pub fn apply_alerts(&mut self, alerts: &Vec<Alert>)
        requires
            old(self).wf(),
        ensures
            final(self).wf(),
            final(self).regions_view() == apply_alerts_spec(old(self).regions_view(), alerts@),
            final(self).items_view() == list_items_spec(final(self).regions_view()),
            final(self).selection() == old(self).selection(),
            final(self).scroll() == old(self).scroll(),
            final(self).last_selection() == old(self).last_selection(),
    {
        let ghost regs0 = self.regions_view();
        let ghost target = apply_alerts_spec(regs0, alerts@);
        let mut i: usize = 0;
        while i < REGION_COUNT
            invariant
                regs0.len() == REGION_COUNT,
                target == apply_alerts_spec(regs0, alerts@),
                i <= REGION_COUNT,
                region_seq(self.regions).len() == REGION_COUNT,
                forall|j: int| 0 <= j < i ==> region_seq(self.regions)[j] == target[j],
                forall|j: int| i <= j < REGION_COUNT ==> region_seq(self.regions)[j] == regs0[j],
                self.selected == old(self).selected,
                self.offset == old(self).offset,
                self.last_selected == old(self).last_selected,
            decreases REGION_COUNT - i,
        {
            let id = rv_get(&self.regions, i).id;
            let st = if alerts_match_region(alerts, id) {
                AlertStatus::A
            } else {
                AlertStatus::N
            };
            assert(st == alerts_status(alerts@, regs0[i as int].id));
            rv_set_status(&mut self.regions, i, st);
            assert(target[i as int] == with_status(regs0[i as int], alerts_status(alerts@, regs0[i as int].id)));
            i += 1;
        }
        assert(region_seq(self.regions) =~= target);
        self.items = build_items(&self.regions);
    }

    /// Borrow the region at one ordinal.
    pub fn region_at(&self, i: usize) -> (r: &Region)
        requires
            self.wf(),
            i < REGION_COUNT,
        ensures
            *r == self.regions_view()[i as int],
    {
        rv_get(&self.regions, i)
    }

    /// Borrow the derived display list.
    pub fn list_items(&self) -> (r: &Vec<ListLine>)
        ensures
            r@ == self.items_view(),
    {
        &self.items
    }

    /// Number of display lines; one per region.
    pub fn list_size(&self) -> (n: usize)
        ensures
            n == self.items_view().len(),
    {
        self.items.len()
    }

    /// The selected list index, when one is selected.
    pub fn selection_index(&self) -> (r: Option<usize>)
        ensures
            r == self.selection(),
    {
        self.selected
    }

    /// The list scroll offset.
    pub fn scroll_offset(&self) -> (r: usize)
        ensures
            r == self.scroll(),
    {
        self.offset
    }

    /// Record the scroll offset the rendered list settled on.
    pub fn set_scroll_offset(&mut self, off: usize)
        ensures
            final(self).scroll() == off,
            final(self).regions_view() == old(self).regions_view(),
            final(self).items_view() == old(self).items_view(),
            final(self).selection() == old(self).selection(),
            final(self).last_selection() == old(self).last_selection(),
            old(self).wf() ==> final(self).wf(),
    {
        self.offset = off;
    }

    /// Move the selection one line down, wrapping from the bottom to the
    /// top; with no selection, resume at the last remembered index.
    pub fn select_next(&mut self)
        requires
            old(self).wf(),
        ensures
            final(self).wf(),
            final(self).selection() == Some(
                spec_select_next(old(self).selection(), old(self).last_selection()),
            ),
            final(self).scroll() == old(self).scroll(),
            final(self).last_selection() == old(self).last_selection(),
            final(self).regions_view() == old(self).regions_view(),
            final(self).items_view() == old(self).items_view(),
    {
        let n = self.items.len();
        let i = match self.selected {
            Some(i) => if i >= n - 1 {
                0
            } else {
                i + 1
            },
            None => match self.last_selected {
                Some(l) => l,
                None => 0,
            },
        };
        self.selected = Some(i);
    }

    /// Move the selection one line up, wrapping from the top to the bottom;
    /// with no selection, resume at the last remembered index.
    pub fn select_previous(&mut self)
        requires
            old(self).wf(),
        ensures
            final(self).wf(),
            final(self).selection() == Some(
                spec_select_previous(old(self).selection(), old(self).last_selection()),
            ),
            final(self).scroll() == old(self).scroll(),
            final(self).last_selection() == old(self).last_selection(),
            final(self).regions_view() == old(self).regions_view(),
            final(self).items_view() == old(self).items_view(),
    {
        let n = self.items.len();
        let i = match self.selected {
            Some(i) => if i == 0 {
                n - 1
            } else {
                i - 1
            },
            None => match self.last_selected {
                Some(l) => l,
                None => 0,
            },
        };
        self.selected = Some(i);
    }

    /// Jump the selection to the first line.
    pub fn select_top(&mut self)
        requires
            old(self).wf(),
        ensures
            final(self).wf(),
            final(self).selection() == Some(0usize),
            final(self).scroll() == old(self).scroll(),
            final(self).last_selection() == old(self).last_selection(),
            final(self).regions_view() == old(self).regions_view(),
            final(self).items_view() == old(self).items_view(),
    {
        self.selected = Some(0);
    }

    /// Jump the selection to the last line.
    pub fn select_bottom(&mut self)
        requires
            old(self).wf(),
        ensures
            final(self).wf(),
            final(self).selection() == Some((REGION_COUNT - 1) as usize),
            final(self).scroll() == old(self).scroll(),
            final(self).last_selection() == old(self).last_selection(),
            final(self).regions_view() == old(self).regions_view(),
            final(self).items_view() == old(self).items_view(),
    {
        let n = self.items.len();
        self.selected = Some(n - 1);
    }

    /// Clear the selection, remembering it for later resumption. The scroll
    /// offset survives the clear, so re-selecting does not reset the
    /// scroll position.
    pub fn unselect(&mut self)
        requires
            old(self).wf(),
        ensures
            final(self).wf(),
            final(self).selection() is None,
            final(self).scroll() == old(self).scroll(),
            final(self).last_selection() == old(self).selection(),
            final(self).regions_view() == old(self).regions_view(),
            final(self).items_view() == old(self).items_view(),
    {
        self.last_selected = self.selected;
        self.selected = None;
    }
}

/// The index `select_next` moves to.
pub open spec fn spec_select_next(sel: Option<usize>, last: Option<usize>) -> usize {
    match sel {
        Some(i) => if i >= REGION_COUNT - 1 {
            0usize
        } else {
            (i + 1) as usize
        },
        None => match last {
            Some(l) => l,
            None => 0usize,
        },
    }
}

/// The index `select_previous` moves to.
pub open spec fn spec_select_previous(sel: Option<usize>, last: Option<usize>) -> usize {
    match sel {
        Some(i) => if i == 0 {
            (REGION_COUNT - 1) as usize
        } else {
            (i - 1) as usize
        },
        None => match last {
            Some(l) => l,
            None => 0usize,
        },
    }
}

/// Whether any record of the list targets the region with the given
/// identifier.
fn alerts_match_region(alerts: &Vec<Alert>, id: i8) -> (b: bool)
    ensures
        b == any_alert_matches(alerts@, id),
{
    let mut k: usize = 0;
    while k < alerts.len()
        invariant
            k <= alerts@.len(),
            forall|j: int| 0 <= j < k ==> !alert_matches(alerts@[j], id),
        decreases alerts@.len() - k,
    {
        let hit = match alerts[k].location_oblast_uid {
            Some(u) => u == id as i32,
            None => false,
        };
        if hit {
            assert(alert_matches(alerts@[k as int], id));
            return true;
        }
        k += 1;
    }
    false
}

/// Rebuild the derived display list from the regions.
fn build_items(rv: &arrayvec::ArrayVec<Region, 27>) -> (items: Vec<ListLine>)
    requires
        region_seq(*rv).len() == REGION_COUNT,
    ensures
        items@ == list_items_spec(region_seq(*rv)),
{
    let mut items: Vec<ListLine> = Vec::new();
    let mut i: usize = 0;
    while i < REGION_COUNT
        invariant
            region_seq(*rv).len() == REGION_COUNT,
            i <= REGION_COUNT,
            items@ =~= list_items_spec(region_seq(*rv)).take(i as int),
        decreases REGION_COUNT - i,
    {
        let r = rv_get(rv, i);
        items.push(r.to_list_item(i));
        i += 1;
    }
    assert(items@ =~= list_items_spec(region_seq(*rv)));
    items
}

/// Law: for any raw text whose trimmed form is well-formed, decoding it and
/// merging the result writes, at every ordinal, exactly the status that the
/// trimmed character at that ordinal stands for.
pub proof fn lemma_decode_then_apply_status(raw: Seq<char>, regions: Seq<Region>, i: int)
    requires
        trim_quotes(raw).len() == REGION_COUNT,
        regions.len() == REGION_COUNT,
        0 <= i < REGION_COUNT,
    ensures
        apply_status_spec(regions, normalize_statuses(trim_quotes(raw)))[i].status
            == status_of_char(trim_quotes(raw)[i]),
{
}

/// Law: the structured-alert merge is idempotent: applying the same alert
/// list twice in a row yields the region snapshot one application yields.
pub proof fn lemma_apply_alerts_idempotent(regions: Seq<Region>, alerts: Seq<Alert>)
    ensures
        apply_alerts_spec(apply_alerts_spec(regions, alerts), alerts) == apply_alerts_spec(
            regions,
            alerts,
        ),
{
    let once = apply_alerts_spec(regions, alerts);
    let twice = apply_alerts_spec(once, alerts);
    assert forall|i: int| 0 <= i < regions.len() implies twice[i] == once[i] by {
        assert(once[i].id == regions[i].id);
    }
    assert(twice =~= once);
}

/// `select_next` iterated `k` times from a given selection.
pub open spec fn iterate_select_next(sel: Option<usize>, last: Option<usize>, k: nat) -> Option<
    usize,
>
    decreases k,
{
    if k == 0 {
        sel
    } else {
        Some(spec_select_next(iterate_select_next(sel, last, (k - 1) as nat), last))
    }
}

/// After `k <= 27` steps from index `i`, the selection sits `k` further,
/// wrapped once past the bottom.
proof fn lemma_select_next_steps(i: usize, last: Option<usize>, k: nat)
    requires
        i < REGION_COUNT,
        k <= REGION_COUNT,
    ensures
        iterate_select_next(Some(i), last, k) == Some(
            (if i + k < REGION_COUNT {
                i + k
            } else {
                i + k - REGION_COUNT
            }) as usize,
        ),
    decreases k,
{
    if k > 0 {
        lemma_select_next_steps(i, last, (k - 1) as nat);
    }
}

/// Law: selection navigation is circular: one `select_next` per region
/// returns the selection to its starting index, whatever that index was.
pub proof fn lemma_select_next_circular(i: usize, last: Option<usize>)
    requires
        i < REGION_COUNT,
    ensures
        iterate_select_next(Some(i), last, REGION_COUNT as nat) == Some(i),
{
    lemma_select_next_steps(i, last, REGION_COUNT as nat);
}

} // verus!
