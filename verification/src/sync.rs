//! The synchronisation of the local database with the server's information:
//! congregations, categories, users, service groups, maps, streets and
//! addresses, in that order, item after item. Each item is looked up; a
//! found item is updated, a missing one added. A failure ends the items of
//! its kind, is reported, and the next kind goes on. The run itself always
//! succeeds.

use vstd::prelude::*;
use crate::datatypes::{DbError, SyncInformation};

verus! {

/// The kinds of synchronised items, in the order they are synchronised.
#[derive(Debug, Clone, Copy, PartialEq, Eq, Structural)]
pub enum SyncKind {
    Congregations,
    Categories,
    Users,
    ServiceGroups,
    Maps,
    Streets,
    Addresses,
}

/// The number of kinds.
pub open spec fn kind_count() -> int {
    7
}

/// The kind synchronised in position `k`.
pub open spec fn kind_at(k: int) -> SyncKind {
    if k == 0 {
        SyncKind::Congregations
    } else if k == 1 {
        SyncKind::Categories
    } else if k == 2 {
        SyncKind::Users
    } else if k == 3 {
        SyncKind::ServiceGroups
    } else if k == 4 {
        SyncKind::Maps
    } else if k == 5 {
        SyncKind::Streets
    } else {
        SyncKind::Addresses
    }
}

/// The number of items of `kind` in `info`.
pub open spec fn items_of(info: SyncInformation, kind: SyncKind) -> nat {
    match kind {
        SyncKind::Congregations => info.congregations@.len(),
        SyncKind::Categories => info.categories@.len(),
        SyncKind::Users => info.users@.len(),
        SyncKind::ServiceGroups => info.service_groups@.len(),
        SyncKind::Maps => info.maps@.len(),
        SyncKind::Streets => info.streets@.len(),
        SyncKind::Addresses => info.addresses@.len(),
    }
}

fn kind_of(k: usize) -> (kind: SyncKind)
    requires
        k < 7,
    ensures
        kind == kind_at(k as int),
{
    if k == 0 {
        SyncKind::Congregations
    } else if k == 1 {
        SyncKind::Categories
    } else if k == 2 {
        SyncKind::Users
    } else if k == 3 {
        SyncKind::ServiceGroups
    } else if k == 4 {
        SyncKind::Maps
    } else if k == 5 {
        SyncKind::Streets
    } else {
        SyncKind::Addresses
    }
}

impl SyncKind {
    /// Whether a failed update ends the items of this kind: it does for
    /// users, maps, streets and addresses; for the others it is ignored.
    pub open spec fn update_failure_ends_kind(self) -> bool {
        match self {
            SyncKind::Users | SyncKind::Maps | SyncKind::Streets | SyncKind::Addresses => true,
            _ => false,
        }
    }

    /// The name of the kind in failure reports.
    pub open spec fn label(self) -> Seq<char> {
        match self {
            SyncKind::Congregations => "congregations"@,
            SyncKind::Categories => "categories"@,
            SyncKind::Users => "users"@,
            SyncKind::ServiceGroups => "groups"@,
            SyncKind::Maps => "maps"@,
            SyncKind::Streets => "streets"@,
            SyncKind::Addresses => "addresses"@,
        }
    }

    fn update_failure_ends(&self) -> (ends: bool)
        ensures
            ends == self.update_failure_ends_kind(),
    {
        match self {
            SyncKind::Users | SyncKind::Maps | SyncKind::Streets | SyncKind::Addresses => true,
            _ => false,
        }
    }

    fn label_str(&self) -> (label: &'static str)
        ensures
            label@ == self.label(),
    {
        match self {
            SyncKind::Congregations => "congregations",
            SyncKind::Categories => "categories",
            SyncKind::Users => "users",
            SyncKind::ServiceGroups => "groups",
            SyncKind::Maps => "maps",
            SyncKind::Streets => "streets",
            SyncKind::Addresses => "addresses",
        }
    }
}

/// The report of a kind whose synchronisation failed.
pub open spec fn failure_report_text(kind: SyncKind, error: DbError) -> Seq<char> {
    "Syncing "@ + kind.label() + " failed: "@ + error.text()
}

/// The text reported when the synchronisation of `kind` fails with `error`.
pub fn failure_report(kind: SyncKind, error: &DbError) -> (text: String)
    ensures
        text@ == failure_report_text(kind, *error),
{
    let mut text = String::from_str("Syncing ");
    text.append(kind.label_str());
    text.append(" failed: ");
    let message = error.to_message();
    text.append(message.as_str());
    text
}

/// Where a run stands.
#[derive(Debug, Clone, Copy, PartialEq, Eq, Structural)]
pub enum SyncStage {
    /// Waiting for the lookup of the current item.
    Lookup,
    /// Waiting for the update of the current item.
    Update,
    /// Waiting for the insertion of the current item.
    Add,
    /// Waiting for the image of the current map to be saved.
    SaveImage,
    /// Waiting for the failure of the current kind to be reported.
    Report,
    /// All kinds are done.
    Done,
}

/// Work for the caller during a run.
#[derive(Debug)]
pub enum SyncAction {
    /// Read the item `index` of a kind from the database.
    Lookup(SyncKind, usize),
    /// Update the item `index` of a kind in the database.
    Update(SyncKind, usize),
    /// Insert the item `index` of a kind into the database.
    Add(SyncKind, usize),
    /// Save the image of the map `index` as a file.
    SaveImage(usize),
    /// Report that the synchronisation of a kind failed with this error.
    Report(SyncKind, DbError),
    /// The run is over; it succeeded.
    Finished,
}

/// The outcome of a `SyncAction`.
#[derive(Debug)]
pub enum SyncEvent {
    /// The lookup found the item, or failed (`InvalidToken` meaning that the
    /// item is missing).
    LookedUp(Result<(), DbError>),
    /// The update or insertion ran, or failed.
    Written(Result<(), DbError>),
    /// The image was saved, or not: either way the run goes on.
    ImageSaved,
    /// The failure was reported.
    Reported,
}

/// A synchronisation run: the number of items of each kind (in sync order),
/// which maps carry an image, and the current kind, item and stage.
pub struct SyncRun {
    pub counts: Vec<usize>,
    pub images: Vec<bool>,
    pub kind: usize,
    pub index: usize,
    pub stage: SyncStage,
}

pub struct SyncView {
    pub counts: Seq<usize>,
    pub images: Seq<bool>,
    pub kind: int,
    pub index: int,
    pub stage: SyncStage,
}

impl View for SyncRun {
    type V = SyncView;

    open spec fn view(&self) -> SyncView {
        SyncView {
            counts: self.counts@,
            images: self.images@,
            kind: self.kind as int,
            index: self.index as int,
            stage: self.stage,
        }
    }
}

/// The first kind, from position `k` on, that has items; `kind_count()` if
/// none has.
pub open spec fn first_open_kind(counts: Seq<usize>, k: int) -> int
    decreases kind_count() - k,
{
    if k >= kind_count() {
        kind_count()
    } else if counts[k] > 0 {
        k
    } else {
        first_open_kind(counts, k + 1)
    }
}

/// The number of items of the kinds from position `k` on.
pub open spec fn items_from(counts: Seq<usize>, k: int) -> nat
    decreases kind_count() - k,
{
    if k >= kind_count() || k < 0 {
        0
    } else {
        counts[k] as nat + items_from(counts, k + 1)
    }
}

impl SyncView {
    pub open spec fn wf(self) -> bool {
        &&& self.counts.len() == kind_count()
        &&& self.images.len() == self.counts[4]
        &&& 0 <= self.kind <= kind_count()
        &&& (self.stage == SyncStage::Done <==> self.kind == kind_count())
        &&& (self.stage != SyncStage::Done && self.stage != SyncStage::Report) ==> 0 <= self.index
            < self.counts[self.kind]
        &&& self.stage == SyncStage::SaveImage ==> self.kind == 4 && self.images[self.index]
    }

    /// The run positioned at the first item of the first kind, from position
    /// `k` on, that has items; or over.
    pub open spec fn enter(self, k: int) -> SyncView {
        let next = first_open_kind(self.counts, k);
        SyncView {
            counts: self.counts,
            images: self.images,
            kind: next,
            index: 0,
            stage: if next == kind_count() {
                SyncStage::Done
            } else {
                SyncStage::Lookup
            },
        }
    }

    /// The run at the same item, in another stage.
    pub open spec fn at(self, stage: SyncStage) -> SyncView {
        SyncView { counts: self.counts, images: self.images, kind: self.kind, index: self.index, stage }
    }

    /// The run after the current item is done.
    pub open spec fn after_item(self) -> SyncView {
        if self.index + 1 < self.counts[self.kind] {
            SyncView {
                counts: self.counts,
                images: self.images,
                kind: self.kind,
                index: self.index + 1,
                stage: SyncStage::Lookup,
            }
        } else {
            self.enter(self.kind + 1)
        }
    }

    /// The run after the current item was written: a map with an image
    /// saves it next.
    pub open spec fn after_write(self) -> SyncView {
        if self.kind == 4 && self.images[self.index] {
            self.at(SyncStage::SaveImage)
        } else {
            self.after_item()
        }
    }

    /// Whether the run waits for `event`.
    pub open spec fn expects(self, event: SyncEvent) -> bool {
        match event {
            SyncEvent::LookedUp(_) => self.stage == SyncStage::Lookup,
            SyncEvent::Written(_) => self.stage == SyncStage::Update || self.stage == SyncStage::Add,
            SyncEvent::ImageSaved => self.stage == SyncStage::SaveImage,
            SyncEvent::Reported => self.stage == SyncStage::Report,
        }
    }

    /// The run after `event`.
    pub open spec fn next(self, event: SyncEvent) -> SyncView {
        match event {
            SyncEvent::LookedUp(Ok(())) => self.at(SyncStage::Update),
            SyncEvent::LookedUp(Err(DbError::InvalidToken(_))) => self.at(SyncStage::Add),
            SyncEvent::LookedUp(Err(_)) => self.at(SyncStage::Report),
            SyncEvent::Written(Ok(())) => self.after_write(),
            SyncEvent::Written(Err(_)) => if self.stage == SyncStage::Add
                || kind_at(self.kind).update_failure_ends_kind() {
                self.at(SyncStage::Report)
            } else {
                self.after_write()
            },
            SyncEvent::ImageSaved => self.after_item(),
            SyncEvent::Reported => self.enter(self.kind + 1),
        }
    }

    /// The work the run asks for in its stage (a report carries the failure
    /// that ended the kind, which this does not know).
    pub open spec fn action(self) -> SyncAction {
        match self.stage {
            SyncStage::Lookup => SyncAction::Lookup(kind_at(self.kind), self.index as usize),
            SyncStage::Update => SyncAction::Update(kind_at(self.kind), self.index as usize),
            SyncStage::Add => SyncAction::Add(kind_at(self.kind), self.index as usize),
            SyncStage::SaveImage => SyncAction::SaveImage(self.index as usize),
            SyncStage::Report => SyncAction::Finished,
            SyncStage::Done => SyncAction::Finished,
        }
    }

    /// The action that follows `event`: the failure that ends a kind is
    /// reported, with the kind; otherwise the next stage's work.
    pub open spec fn action_after(self, event: SyncEvent) -> SyncAction {
        let next = self.next(event);
        if next.stage == SyncStage::Report {
            match event {
                SyncEvent::LookedUp(Err(e)) => SyncAction::Report(kind_at(self.kind), e),
                SyncEvent::Written(Err(e)) => SyncAction::Report(kind_at(self.kind), e),
                _ => SyncAction::Finished,
            }
        } else {
            next.action()
        }
    }

    /// The remaining work: it decreases with every event.
    pub open spec fn measure(self) -> nat {
        let later = 4 * items_from(self.counts, self.kind + 1) + (8 - self.kind);
        let here = 4 * (self.counts[self.kind] - self.index);
        match self.stage {
            SyncStage::Done => 0,
            SyncStage::Report => later as nat,
            SyncStage::Lookup => (later + here) as nat,
            SyncStage::Update => (later + here - 1) as nat,
            SyncStage::Add => (later + here - 1) as nat,
            SyncStage::SaveImage => (later + here - 2) as nat,
        }
    }
}

/// Skipping the kinds without items skips no item.
pub proof fn lemma_first_open_kind(counts: Seq<usize>, k: int)
    requires
        counts.len() == kind_count(),
        0 <= k <= kind_count(),
    ensures
        k <= first_open_kind(counts, k) <= kind_count(),
        first_open_kind(counts, k) < kind_count() ==> counts[first_open_kind(counts, k)] > 0,
        items_from(counts, first_open_kind(counts, k)) == items_from(counts, k),
    decreases kind_count() - k,
{
    if k < kind_count() && counts[k] == 0 {
        lemma_first_open_kind(counts, k + 1);
    }
}

/// Entering the kinds from position `k` on leaves a well-formed run with no
/// more work than the items from `k` on.
proof fn lemma_enter(v: SyncView, k: int)
    requires
        v.counts.len() == kind_count(),
        v.images.len() == v.counts[4],
        0 <= k <= kind_count(),
    ensures
        v.enter(k).wf(),
        v.enter(k).measure() <= 4 * items_from(v.counts, k) + (8 - k),
{
    lemma_first_open_kind(v.counts, k);
}

/// Every event leaves a well-formed run with strictly less work to do: a
/// synchronisation run always comes to its end.
pub proof fn lemma_sync_progress(v: SyncView, event: SyncEvent)
    requires
        v.wf(),
        v.expects(event),
    ensures
        v.next(event).wf(),
        v.next(event).measure() < v.measure(),
{
    if v.stage != SyncStage::Report {
        assert(items_from(v.counts, v.kind) == v.counts[v.kind] + items_from(v.counts, v.kind + 1));
    }
    if v.stage != SyncStage::Done {
        lemma_enter(v, v.kind + 1);
    }
}

/// When no kind from position `k` on has items, every such kind has none.
proof fn lemma_no_open_kind(counts: Seq<usize>, k: int)
    requires
        counts.len() == kind_count(),
        0 <= k <= kind_count(),
        first_open_kind(counts, k) == kind_count(),
    ensures
        forall|j: int| k <= j < kind_count() ==> counts[j] == 0,
    decreases kind_count() - k,
{
    if k < kind_count() {
        lemma_no_open_kind(counts, k + 1);
    }
}

/// The kinds are synchronised in this order: congregations, categories,
/// users, service groups, maps, streets, addresses.
pub proof fn lemma_sync_order()
    ensures
        kind_at(0) == SyncKind::Congregations,
        kind_at(1) == SyncKind::Categories,
        kind_at(2) == SyncKind::Users,
        kind_at(3) == SyncKind::ServiceGroups,
        kind_at(4) == SyncKind::Maps,
        kind_at(5) == SyncKind::Streets,
        kind_at(6) == SyncKind::Addresses,
{
}

/// A successfully written item is followed by saving its image exactly
/// when it is a map that carries one, whatever its place in the list; the
/// image saved is that of the same map.
pub proof fn lemma_written_map_saves_image(v: SyncView)
    requires
        v.wf(),
        v.stage == SyncStage::Update || v.stage == SyncStage::Add,
    ensures
        (v.next(SyncEvent::Written(Ok(()))).stage == SyncStage::SaveImage) <==> (kind_at(v.kind)
            == SyncKind::Maps && v.images[v.index]),
        kind_at(v.kind) == SyncKind::Maps && v.images[v.index] ==> {
            &&& v.next(SyncEvent::Written(Ok(()))).kind == v.kind
            &&& v.next(SyncEvent::Written(Ok(()))).index == v.index
            &&& v.action_after(SyncEvent::Written(Ok(()))) == SyncAction::SaveImage(v.index as usize)
        },
{
    lemma_sync_order();
    if v.index + 1 >= v.counts[v.kind] {
        lemma_first_open_kind(v.counts, v.kind + 1);
    }
}

/// `n` has gone on from the current item of `v`: to the next item of the
/// same kind when there is one, else to the first item of the next kind
/// that has items, skipping only kinds without items, or to the end.
pub open spec fn went_on_from_item(v: SyncView, n: SyncView) -> bool {
    if v.index + 1 < v.counts[v.kind] {
        n.kind == v.kind && n.index == v.index + 1 && n.stage == SyncStage::Lookup
    } else {
        went_on_from_kind(v, n)
    }
}

/// `n` has gone on from the current kind of `v`: to the first item of the
/// next kind that has items, skipping only kinds without items, or to the
/// end.
pub open spec fn went_on_from_kind(v: SyncView, n: SyncView) -> bool {
    &&& v.kind < n.kind <= kind_count()
    &&& forall|j: int| v.kind < j < n.kind ==> v.counts[j] == 0
    &&& n.kind < kind_count() ==> (v.counts[n.kind] > 0 && n.index == 0 && n.stage == SyncStage::Lookup)
    &&& n.kind == kind_count() ==> n.stage == SyncStage::Done
    &&& n.counts == v.counts && n.images == v.images
}

/// Entering from position `k` skips only kinds without items.
proof fn lemma_enter_skips_empty_kinds(v: SyncView, k: int)
    requires
        v.counts.len() == kind_count(),
        0 <= k <= kind_count(),
    ensures
        forall|j: int| k <= j < v.enter(k).kind ==> v.counts[j] == 0,
    decreases kind_count() - k,
{
    if k < kind_count() && v.counts[k] == 0 {
        lemma_enter_skips_empty_kinds(v, k + 1);
    }
}

/// What each outcome leads to. A found item is updated and a missing one
/// (`InvalidToken`) added, the same item; any other failed lookup, a failed
/// insertion, and a failed update of users, maps, streets or addresses
/// end the kind with a report of that failure; a failed update of
/// congregations, categories or service groups is passed over. After a
/// written item (and the saved image of a map that has one) the run goes on
/// to the next item; after a report, to the next kind.
pub proof fn lemma_sync_outcomes(v: SyncView, event: SyncEvent)
    requires
        v.wf(),
        v.expects(event),
    ensures
        event matches SyncEvent::LookedUp(Ok(())) ==> {
            &&& v.next(event) == (SyncView { stage: SyncStage::Update, ..v })
            &&& v.action_after(event) == SyncAction::Update(kind_at(v.kind), v.index as usize)
        },
        event matches SyncEvent::LookedUp(Err(DbError::InvalidToken(_))) ==> {
            &&& v.next(event) == (SyncView { stage: SyncStage::Add, ..v })
            &&& v.action_after(event) == SyncAction::Add(kind_at(v.kind), v.index as usize)
        },
        event matches SyncEvent::LookedUp(Err(e)) ==> (!(e is InvalidToken) ==> {
            &&& v.next(event) == (SyncView { stage: SyncStage::Report, ..v })
            &&& v.action_after(event) == SyncAction::Report(kind_at(v.kind), e)
        }),
        event matches SyncEvent::Written(Err(e)) ==> ((v.stage == SyncStage::Add || kind_at(v.kind)
            == SyncKind::Users || kind_at(v.kind) == SyncKind::Maps || kind_at(v.kind)
            == SyncKind::Streets || kind_at(v.kind) == SyncKind::Addresses) ==> {
            &&& v.next(event) == (SyncView { stage: SyncStage::Report, ..v })
            &&& v.action_after(event) == SyncAction::Report(kind_at(v.kind), e)
        }),
        event matches SyncEvent::Written(r) ==> ((r is Ok || (v.stage == SyncStage::Update && (
        kind_at(v.kind) == SyncKind::Congregations || kind_at(v.kind) == SyncKind::Categories
            || kind_at(v.kind) == SyncKind::ServiceGroups))) && !(kind_at(v.kind) == SyncKind::Maps
            && v.images[v.index]) ==> went_on_from_item(v, v.next(event))),
        event is ImageSaved ==> went_on_from_item(v, v.next(event)),
        event is Reported ==> went_on_from_kind(v, v.next(event)),
        v.next(event).stage == SyncStage::Lookup ==> v.action_after(event) == SyncAction::Lookup(
            kind_at(v.next(event).kind),
            v.next(event).index as usize,
        ),
        v.next(event).stage == SyncStage::Done ==> v.action_after(event) is Finished,
{
    lemma_sync_order();
    lemma_sync_progress(v, event);
    if v.stage != SyncStage::Done {
        lemma_enter_skips_empty_kinds(v, v.kind + 1);
        lemma_first_open_kind(v.counts, v.kind + 1);
    }
    assert(v.at(SyncStage::Update) == (SyncView { stage: SyncStage::Update, ..v }));
    assert(v.at(SyncStage::Add) == (SyncView { stage: SyncStage::Add, ..v }));
    assert(v.at(SyncStage::Report) == (SyncView { stage: SyncStage::Report, ..v }));
}

impl SyncRun {
    fn enter(&mut self, k: usize)
        requires
            old(self)@.counts.len() == kind_count(),
            old(self)@.images.len() == old(self)@.counts[4],
            k <= 7,
        ensures
            final(self)@ == old(self)@.enter(k as int),
    {
        let mut next = k;
        while next < 7
            invariant
                self.counts@.len() == kind_count(),
                k <= next <= 7,
                first_open_kind(self.counts@, next as int) == first_open_kind(self.counts@, k as int),
            ensures
                k <= next <= 7,
                next < 7 ==> self.counts@[next as int] > 0,
                first_open_kind(self.counts@, next as int) == first_open_kind(self.counts@, k as int),
            decreases 7 - next,
        {
            if self.counts[next] > 0 {
                break;
            }
            next = next + 1;
        }
        self.kind = next;
        self.index = 0;
        self.stage = if next == 7 {
            SyncStage::Done
        } else {
            SyncStage::Lookup
        };
    }

    fn action(&self) -> (action: SyncAction)
        requires
            self@.wf(),
            self.stage != SyncStage::Report,
        ensures
            action == self@.action(),
    {
        match self.stage {
            SyncStage::Lookup => SyncAction::Lookup(kind_of(self.kind), self.index),
            SyncStage::Update => SyncAction::Update(kind_of(self.kind), self.index),
            SyncStage::Add => SyncAction::Add(kind_of(self.kind), self.index),
            SyncStage::SaveImage => SyncAction::SaveImage(self.index),
            _ => SyncAction::Finished,
        }
    }

    fn after_item(&mut self)
        requires
            old(self)@.wf(),
            old(self).stage != SyncStage::Done,
            old(self).stage != SyncStage::Report,
        ensures
            final(self)@ == old(self)@.after_item(),
    {
        if self.index + 1 < self.counts[self.kind] {
            self.index = self.index + 1;
            self.stage = SyncStage::Lookup;
        } else {
            let k = self.kind + 1;
            self.enter(k);
        }
    }

    fn after_write(&mut self)
        requires
            old(self)@.wf(),
            old(self).stage != SyncStage::Done,
            old(self).stage != SyncStage::Report,
        ensures
            final(self)@ == old(self)@.after_write(),
    {
        if self.kind == 4 && self.images[self.index] {
            self.stage = SyncStage::SaveImage;
        } else {
            self.after_item();
        }
    }

    /// Starts the synchronisation of `info`: at the first item of the first
    /// kind that has items.
    pub fn new(info: &SyncInformation) -> (r: (SyncRun, SyncAction))
        ensures
            r.0@.counts == seq![
                info.congregations@.len() as usize,
                info.categories@.len() as usize,
                info.users@.len() as usize,
                info.service_groups@.len() as usize,
                info.maps@.len() as usize,
                info.streets@.len() as usize,
                info.addresses@.len() as usize,
            ],
            r.0@.images == info.maps@.map_values(|m: crate::datatypes::MapDetails| m.image is Some),
            r.0@ == r.0@.enter(0),
            r.0@.wf(),
            r.1 == r.0@.action(),
            forall|k: int| 0 <= k < kind_count() ==> r.0@.counts[k] == items_of(*info, #[trigger] kind_at(k)),
            r.1 matches SyncAction::Lookup(kind, i) ==> i == 0 && items_of(*info, kind) > 0,
            r.1 is Finished ==> forall|kind: SyncKind| items_of(*info, kind) == 0,
    {
        let counts = vec![
            info.congregations.len(),
            info.categories.len(),
            info.users.len(),
            info.service_groups.len(),
            info.maps.len(),
            info.streets.len(),
            info.addresses.len(),
        ];
        let mut images: Vec<bool> = Vec::new();
        let mut i: usize = 0;
        while i < info.maps.len()
            invariant
                i <= info.maps@.len(),
                images@ == info.maps@.take(i as int).map_values(
                    |m: crate::datatypes::MapDetails| m.image is Some,
                ),
            decreases info.maps@.len() - i,
        {
            images.push(info.maps[i].image.is_some());
            i = i + 1;
            assert(images@ =~= info.maps@.take(i as int).map_values(
                |m: crate::datatypes::MapDetails| m.image is Some,
            ));
        }
        assert(info.maps@.take(i as int) =~= info.maps@);
        let mut run = SyncRun { counts, images, kind: 0, index: 0, stage: SyncStage::Lookup };
        assert(run@.counts.len() == kind_count());
        run.enter(0);
        proof {
            lemma_enter(run@, 0);
        }
        let action = run.action();
        proof {
            lemma_first_open_kind(run@.counts, 0);
            lemma_sync_order();
            if action is Finished {
                assert forall|kind: SyncKind| items_of(*info, kind) == 0 by {
                    lemma_no_open_kind(run@.counts, 0);
                    match kind {
                        SyncKind::Congregations => assert(run@.counts[0] == 0),
                        SyncKind::Categories => assert(run@.counts[1] == 0),
                        SyncKind::Users => assert(run@.counts[2] == 0),
                        SyncKind::ServiceGroups => assert(run@.counts[3] == 0),
                        SyncKind::Maps => assert(run@.counts[4] == 0),
                        SyncKind::Streets => assert(run@.counts[5] == 0),
                        SyncKind::Addresses => assert(run@.counts[6] == 0),
                    }
                }
            }
        }
        (run, action)
    }

    /// Takes the outcome of the last action (see `SyncView::next`) and
    /// returns the next action.
    pub fn step(&mut self, event: SyncEvent) -> (action: SyncAction)
        requires
            old(self)@.wf(),
            old(self)@.expects(event),
        ensures
            final(self)@ == old(self)@.next(event),
            final(self)@.wf(),
            action == old(self)@.action_after(event),
    {
        proof {
            lemma_sync_progress(self@, event);
        }
        let kind = kind_of(self.kind);
        match event {
            SyncEvent::LookedUp(Ok(())) => {
                self.stage = SyncStage::Update;
                self.action()
            },
            SyncEvent::LookedUp(Err(DbError::InvalidToken(_))) => {
                self.stage = SyncStage::Add;
                self.action()
            },
            SyncEvent::LookedUp(Err(e)) => {
                self.stage = SyncStage::Report;
                SyncAction::Report(kind, e)
            },
            SyncEvent::Written(Ok(())) => {
                self.after_write();
                self.action()
            },
            SyncEvent::Written(Err(e)) => {
                if self.stage == SyncStage::Add || kind.update_failure_ends() {
                    self.stage = SyncStage::Report;
                    SyncAction::Report(kind, e)
                } else {
                    self.after_write();
                    self.action()
                }
            },
            SyncEvent::ImageSaved => {
                self.after_item();
                self.action()
            },
            SyncEvent::Reported => {
                let k = self.kind + 1;
                self.enter(k);
                self.action()
            },
        }
    }
}

} // verus!
