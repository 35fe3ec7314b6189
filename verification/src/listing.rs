//! The enumeration of the nodes that are registered in a fabric.
//!
//! The caller lists the monitoring directory, then looks at one
//! registration after the other and hands each node it finds to its
//! callback. [`Listing::next_action`] says what is due.

use crate::backend::NamedConceptListError;
use crate::decimal::parsed_decimal;
use crate::failure::NodeListFailure;
use crate::file_name::file_name_bytes;
use crate::node_id::NodeId;
use crate::node_state::NodeState;
use iceoryx2_bb_elementary::CallbackProgression;
use iceoryx2_bb_system_types::file_name::FileName;
use vstd::prelude::*;

verus! {

/// `iceoryx2_bb_elementary::CallbackProgression`, with the variants that
/// the crate gives it: what a callback returns to stop an iteration or to
/// let it go on.
#[verifier::external_type_specification]
pub struct ExCallbackProgression(CallbackProgression);

/// Where an enumeration stands.
#[derive(Debug, Clone, Copy, PartialEq, Eq, Structural)]
pub enum ListPhase {
    /// The next registration is looked at.
    Probing,
    /// The callback has the node that was found last.
    Delivering,
    /// The enumeration ended.
    Done,
}

/// What the caller has to do next.
#[derive(Debug, Clone, Copy, PartialEq, Eq)]
pub enum ListAction {
    /// Read the details and ask for the state of the node with this
    /// identifier, and classify it.
    Probe(u128),
    /// Hand the node with this identifier, as it was just classified, to
    /// the callback.
    Deliver(u128),
    /// Nothing more: the enumeration ended with this result.
    Finish(Result<(), NodeListFailure>),
}

/// What looking at one registration gave.
#[derive(Debug, Clone, Copy, PartialEq, Eq, Structural)]
pub enum Probed {
    /// The node was classified.
    Found,
    /// The registration vanished in the meantime.
    Gone,
    /// The look failed.
    Failed(NodeListFailure),
}

/// What the caller reports back.
pub enum ListEvent {
    Probed(Probed),
    Returned(CallbackProgression),
}

/// An enumeration as plain values.
pub struct ListingView {
    pub phase: ListPhase,
    /// The identifiers that are registered, in the order of the listing.
    pub ids: Seq<u128>,
    /// How many of them have been looked at.
    pub probed: nat,
    /// The result, once the enumeration is done.
    pub result: Result<(), NodeListFailure>,
}

/// What a classification reports of the look at a registration.
pub open spec fn probed_as(classified: Result<Option<NodeState>, NodeListFailure>) -> Probed {
    match classified {
        Ok(Some(_)) => Probed::Found,
        Ok(None) => Probed::Gone,
        Err(e) => Probed::Failed(e),
    }
}

/// The identifiers under which the listed names are registered.
pub open spec fn registered_ids(names: Seq<FileName>) -> Seq<u128> {
    names.map_values(|name: FileName| parsed_decimal(file_name_bytes(name)).unwrap())
}

/// Whether every listed name is the registration of a node.
pub open spec fn all_registrations(names: Seq<FileName>) -> bool {
    forall|i: int|
        0 <= i < names.len() ==> parsed_decimal(file_name_bytes(#[trigger] names[i])).is_some()
}

impl ListingView {
    /// What holds of every enumeration: a registration that is looked at
    /// is listed, and a node that is delivered was looked at.
    pub open spec fn wf(self) -> bool {
        &&& self.probed <= self.ids.len()
        &&& self.phase == ListPhase::Probing ==> self.probed < self.ids.len()
        &&& self.phase == ListPhase::Delivering ==> self.probed >= 1
    }

    pub open spec fn finished(self, result: Result<(), NodeListFailure>) -> ListingView {
        ListingView { phase: ListPhase::Done, result, ..self }
    }

    /// The enumeration turns to the next registration, or ends when none
    /// is left.
    pub open spec fn advanced(self) -> ListingView {
        if self.probed < self.ids.len() {
            ListingView { phase: ListPhase::Probing, ..self }
        } else {
            self.finished(Ok(()))
        }
    }

    /// The enumeration of the listed identifiers as it begins.
    pub open spec fn begin(ids: Seq<u128>) -> ListingView {
        ListingView { phase: ListPhase::Probing, ids, probed: 0, result: Ok(()) }.advanced()
    }

    /// The enumeration that ends before it began, because the
    /// registrations could not be listed.
    pub open spec fn failed(failure: NodeListFailure) -> ListingView {
        ListingView { phase: ListPhase::Done, ids: Seq::empty(), probed: 0, result: Err(failure) }
    }

    /// What the caller has to do next.
    pub open spec fn next_action(self) -> ListAction {
        match self.phase {
            ListPhase::Probing => ListAction::Probe(self.ids[self.probed as int]),
            ListPhase::Delivering => ListAction::Deliver(self.ids[self.probed - 1]),
            ListPhase::Done => ListAction::Finish(self.result),
        }
    }

    /// The enumeration after the look at the registration that was due.
    /// A registration that vanished is passed over; a failed look ends
    /// the enumeration with its failure.
    pub open spec fn after_probed(self, probed: Probed) -> ListingView {
        let looked = ListingView { probed: self.probed + 1, ..self };
        match probed {
            Probed::Found => ListingView { phase: ListPhase::Delivering, ..looked },
            Probed::Gone => looked.advanced(),
            Probed::Failed(e) => looked.finished(Err(e)),
        }
    }

    /// The enumeration after the callback returned.
    pub open spec fn after_returned(self, progression: CallbackProgression) -> ListingView {
        match progression {
            CallbackProgression::Stop => self.finished(Ok(())),
            CallbackProgression::Continue => self.advanced(),
        }
    }

    /// Whether `event` answers the action that is due.
    pub open spec fn accepts(self, event: ListEvent) -> bool {
        match event {
            ListEvent::Probed(_) => self.phase == ListPhase::Probing,
            ListEvent::Returned(_) => self.phase == ListPhase::Delivering,
        }
    }

    /// The enumeration after `event`.
    pub open spec fn after(self, event: ListEvent) -> ListingView {
        match event {
            ListEvent::Probed(probed) => self.after_probed(probed),
            ListEvent::Returned(progression) => self.after_returned(progression),
        }
    }

    /// Whether `events` can be reported in this order.
    pub open spec fn accepts_all(self, events: Seq<ListEvent>) -> bool
        decreases events.len(),
    {
        if events.len() == 0 {
            true
        } else {
            self.accepts(events[0]) && self.after(events[0]).accepts_all(events.drop_first())
        }
    }

    /// The enumeration after all of `events`.
    pub open spec fn after_all(self, events: Seq<ListEvent>) -> ListingView
        decreases events.len(),
    {
        if events.len() == 0 {
            self
        } else {
            self.after(events[0]).after_all(events.drop_first())
        }
    }

    /// The places in the listing of the nodes that the callback gets
    /// while `events` are reported, in the order in which it gets them.
    pub open spec fn deliveries(self, events: Seq<ListEvent>) -> Seq<int>
        decreases events.len(),
    {
        if events.len() == 0 {
            Seq::empty()
        } else {
            let rest = self.after(events[0]).deliveries(events.drop_first());
            if events[0] == ListEvent::Probed(Probed::Found) {
                seq![self.probed as int] + rest
            } else {
                rest
            }
        }
    }
}

/// An enumeration of the registered nodes.
#[derive(Debug)]
pub struct Listing {
    ids: Vec<u128>,
    probed: usize,
    phase: ListPhase,
    result: Result<(), NodeListFailure>,
}

impl View for Listing {
    type V = ListingView;

    closed spec fn view(&self) -> ListingView {
        ListingView {
            phase: self.phase,
            ids: self.ids@,
            probed: self.probed as nat,
            result: self.result,
        }
    }
}

impl Listing {
    /// Begins the enumeration of the nodes registered under `names`.
    /// Every name must be a registration.
    pub fn begin(names: &Vec<FileName>) -> (listing: Listing)
        requires
            all_registrations(names@),
        ensures
            listing@ == ListingView::begin(registered_ids(names@)),
            listing@.wf(),
    {
        let mut ids: Vec<u128> = Vec::new();
        let mut i: usize = 0;
        while i < names.len()
            invariant
                i <= names.len(),
                all_registrations(names@),
                ids@ == registered_ids(names@).subrange(0, i as int),
            decreases names.len() - i,
        {
            match NodeId::value_of_registration(&names[i]) {
                Some(value) => {
                    ids.push(value);
                },
                None => {
                    assert(false);
                },
            }
            assert(ids@ =~= registered_ids(names@).subrange(0, i + 1));
            i = i + 1;
        }
        assert(ids@ =~= registered_ids(names@));
        let mut listing = Listing { ids, probed: 0, phase: ListPhase::Probing, result: Ok(()) };
        listing.advance();
        listing
    }

    /// Begins the enumeration of the nodes registered under `names` if
    /// every name is a registration; `None` if one is not.
    pub fn try_begin(names: &Vec<FileName>) -> (listing: Option<Listing>)
        ensures
            listing.is_some() == all_registrations(names@),
            listing matches Some(begun) ==> begun@ == ListingView::begin(registered_ids(names@))
                && begun@.wf(),
    {
        let mut i: usize = 0;
        while i < names.len()
            invariant
                i <= names.len(),
                forall|j: int|
                    0 <= j < i ==> parsed_decimal(file_name_bytes(#[trigger] names@[j])).is_some(),
            decreases names.len() - i,
        {
            if !NodeId::is_registration(&names[i]) {
                return None;
            }
            i = i + 1;
        }
        Some(Listing::begin(names))
    }

    /// The enumeration that cannot begin because of `failure`.
    pub fn failed(failure: NodeListFailure) -> (listing: Listing)
        ensures
            listing@ == ListingView::failed(failure),
            listing@.wf(),
    {
        let listing = Listing {
            ids: Vec::new(),
            probed: 0,
            phase: ListPhase::Done,
            result: Err(failure),
        };
        assert(listing@.ids =~= Seq::<u128>::empty());
        listing
    }

    /// Where the enumeration stands.
    pub fn phase(&self) -> (phase: ListPhase)
        ensures
            phase == self@.phase,
    {
        self.phase
    }

    /// What the caller has to do next.
    pub fn next_action(&self) -> (action: ListAction)
        requires
            self@.wf(),
        ensures
            action == self@.next_action(),
    {
        match self.phase {
            ListPhase::Probing => ListAction::Probe(self.ids[self.probed]),
            ListPhase::Delivering => ListAction::Deliver(self.ids[self.probed - 1]),
            ListPhase::Done => ListAction::Finish(self.result),
        }
    }

    /// Takes the classification of the node whose look was due.
    pub fn probed(&mut self, classified: &Result<Option<NodeState>, NodeListFailure>)
        requires
            old(self)@.wf(),
            old(self)@.phase == ListPhase::Probing,
        ensures
            final(self)@ == old(self)@.after_probed(probed_as(*classified)),
            final(self)@.wf(),
    {
        assert(self.probed < self.ids.len());
        self.probed = self.probed + 1;
        match classified {
            Ok(Some(_)) => {
                self.phase = ListPhase::Delivering;
            },
            Ok(None) => {
                self.advance();
            },
            Err(e) => {
                self.phase = ListPhase::Done;
                self.result = Err(*e);
            },
        }
    }

    /// Takes what the callback returned for the node it was handed.
    pub fn returned(&mut self, progression: CallbackProgression)
        requires
            old(self)@.wf(),
            old(self)@.phase == ListPhase::Delivering,
        ensures
            final(self)@ == old(self)@.after_returned(progression),
            final(self)@.wf(),
    {
        match progression {
            CallbackProgression::Stop => {
                self.phase = ListPhase::Done;
                self.result = Ok(());
            },
            CallbackProgression::Continue => {
                self.advance();
            },
        }
    }

    fn advance(&mut self)
        requires
            old(self)@.probed <= old(self)@.ids.len(),
        ensures
            final(self)@ == old(self)@.advanced(),
            final(self)@.wf(),
    {
        if self.probed < self.ids.len() {
            self.phase = ListPhase::Probing;
        } else {
            self.phase = ListPhase::Done;
            self.result = Ok(());
        }
    }
}

/// The names that the monitoring listed, or why the nodes cannot be
/// listed.
pub fn list_all_nodes(listed: Result<Vec<FileName>, NamedConceptListError>) -> (names: Result<
    Vec<FileName>,
    NodeListFailure,
>)
    ensures
        match listed {
            Ok(found) => names == Ok::<Vec<FileName>, NodeListFailure>(found),
            Err(NamedConceptListError::InsufficientPermissions) => names == Err::<
                Vec<FileName>,
                NodeListFailure,
            >(NodeListFailure::InsufficientPermissions),
            Err(NamedConceptListError::InternalError) => names == Err::<
                Vec<FileName>,
                NodeListFailure,
            >(NodeListFailure::InternalError),
        },
{
    match listed {
        Ok(found) => Ok(found),
        Err(NamedConceptListError::InsufficientPermissions) => Err(
            NodeListFailure::InsufficientPermissions,
        ),
        Err(NamedConceptListError::InternalError) => Err(NodeListFailure::InternalError),
    }
}

/// An enumeration stays well-formed whatever is reported.
pub proof fn lemma_listing_stays_well_formed(listing: ListingView, events: Seq<ListEvent>)
    requires
        listing.wf(),
        listing.accepts_all(events),
    ensures
        listing.after_all(events).wf(),
        listing.after_all(events).ids == listing.ids,
        listing.after_all(events).probed >= listing.probed,
    decreases events.len(),
{
    if events.len() > 0 {
        lemma_listing_stays_well_formed(listing.after(events[0]), events.drop_first());
    }
}

/// A registration that vanished before it was looked at does not fail the
/// enumeration: it goes on with the next registration, or ends well.
pub proof fn lemma_vanished_node_is_passed_over(listing: ListingView)
    requires
        listing.wf(),
        listing.phase == ListPhase::Probing,
    ensures
        listing.after_probed(Probed::Gone).next_action() == (if listing.probed + 1
            < listing.ids.len() {
            ListAction::Probe(listing.ids[listing.probed as int + 1])
        } else {
            ListAction::Finish(Ok(()))
        }),
{
}

/// The callback gets the nodes in the order of the listing, each place of
/// the listing at most once, and only places that were looked at.
pub proof fn lemma_deliveries_are_ordered(listing: ListingView, events: Seq<ListEvent>)
    requires
        listing.wf(),
        listing.accepts_all(events),
    ensures
        forall|k: int|
            0 <= k < listing.deliveries(events).len() ==> listing.probed <= (
            #[trigger] listing.deliveries(events)[k]) < listing.after_all(events).probed,
        forall|j: int, k: int|
            0 <= j < k < listing.deliveries(events).len() ==> listing.deliveries(events)[j]
                < listing.deliveries(events)[k],
    decreases events.len(),
{
    if events.len() > 0 {
        let next = listing.after(events[0]);
        let rest = events.drop_first();
        lemma_deliveries_are_ordered(next, rest);
        lemma_listing_stays_well_formed(next, rest);
        let tail = next.deliveries(rest);
        let all = listing.deliveries(events);
        if events[0] == ListEvent::Probed(Probed::Found) {
            assert(all =~= seq![listing.probed as int] + tail);
            assert forall|k: int| 0 <= k < all.len() implies listing.probed <= (#[trigger] all[k])
                < listing.after_all(events).probed by {
                if k > 0 {
                    assert(all[k] == tail[k - 1]);
                }
            }
            assert forall|j: int, k: int| 0 <= j < k < all.len() implies all[j] < all[k] by {
                assert(all[k] == tail[k - 1]);
                if j > 0 {
                    assert(all[j] == tail[j - 1]);
                }
            }
        } else {
            assert(all == tail);
        }
    }
}

/// Where no identifier is registered twice, no node reaches the callback
/// twice in one enumeration.
pub proof fn lemma_no_node_is_delivered_twice(ids: Seq<u128>, events: Seq<ListEvent>)
    requires
        ids.no_duplicates(),
        ListingView::begin(ids).accepts_all(events),
    ensures
        forall|j: int, k: int|
            #![trigger ListingView::begin(ids).deliveries(events)[j], ListingView::begin(ids).deliveries(events)[k]]
            0 <= j < k < ListingView::begin(ids).deliveries(events).len() ==> ids[ListingView::begin(
                ids,
            ).deliveries(events)[j]] != ids[ListingView::begin(ids).deliveries(events)[k]],
{
    let listing = ListingView::begin(ids);
    lemma_deliveries_are_ordered(listing, events);
    lemma_listing_stays_well_formed(listing, events);
}

} // verus!
