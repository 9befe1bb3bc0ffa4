//! Anonymous visit statistics: a bounded queue between the request handlers
//! and one worker, and the enrichment that the worker applies to each visit.

pub mod cache;
pub mod codebook;
pub mod ip_location;
pub mod pseudonymizer;

use crate::db::entities::ArticleStat;
use crate::stats::cache::cached_value;
use crate::stats::codebook::newline_count;
use crate::stats::ip_location::{GeoError, GeoInfo};
use crate::stats::pseudonymizer::{
    cache_after, codebook_view, digest_of, pseudonym, text_view, Lookup, PseudonymizerError,
    WordlistPseudoyimizer, CACHE_CAPACITY,
};
use crate::utils::ip_utils::{extract_first_bytes, first_bytes};
use crate::utils::text_utils::{capitalized, first_letter_to_upper};
use std::collections::VecDeque;
use vstd::prelude::*;

verus! {

/// A visit as a request handler reports it.
#[derive(Debug)]
pub struct BaseArticleStat {
    pub article_id: i32,
    pub client_ua: String,
    pub client_ip: String,
}

/// What travels through the queue to the worker.
#[derive(Debug)]
pub enum StatsMessage {
    /// The service is closing: the worker stops.
    Close,
    /// A visit to enrich and store.
    InsertArticleStats(BaseArticleStat),
}

/// Why the statistics service could not be opened or did not take a visit.
#[derive(Debug, Clone, Copy, PartialEq, Eq, Structural)]
pub enum StatsError {
    /// The codebook could not be read.
    CodebookUnreadable,
    /// The codebook holds no line.
    EmptyCodebook,
    /// The geographic database could not be opened.
    GeoDatabaseUnreadable,
    /// The worker has terminated: the service has to be opened anew.
    PipelineDead,
}

/// The pseudonym of a value as it is stored: with a capital first letter, or
/// empty where no pseudonym could be found.
pub open spec fn stored_pseudonym(answer: Result<Seq<char>, PseudonymizerError>) -> Seq<char> {
    match answer {
        Ok(word) => capitalized(word),
        Err(_) => Seq::<char>::empty(),
    }
}

/// The pseudonym of `value` for a stored record. A failure of the
/// pseudonymizer is not fatal: it gives an empty string.
pub fn pseudonymize(
    pseudonymizer: &mut WordlistPseudoyimizer,
    value: &str,
    codebook: Option<&[u8]>,
) -> (stored: String)
    ensures
        stored@ == stored_pseudonym(
            pseudonym(
                old(pseudonymizer).spec_cache(),
                old(pseudonymizer).spec_line_count(),
                codebook_view(codebook),
                value@,
            ),
        ),
        final(pseudonymizer).spec_cache() == cache_after(
            old(pseudonymizer).spec_cache(),
            old(pseudonymizer).spec_cache_capacity(),
            value@,
            pseudonym(
                old(pseudonymizer).spec_cache(),
                old(pseudonymizer).spec_line_count(),
                codebook_view(codebook),
                value@,
            ),
        ),
        final(pseudonymizer).spec_cache_capacity() == old(pseudonymizer).spec_cache_capacity(),
        final(pseudonymizer).spec_line_count() == old(pseudonymizer).spec_line_count(),
        final(pseudonymizer).spec_filename() == old(pseudonymizer).spec_filename(),
{
    stored_pseudonym_of(pseudonymizer.pseudonymize(value, codebook))
}

/// The pseudonym to store for an answer of the pseudonymizer: with a capital
/// first letter, or empty where the pseudonymizer failed.
pub fn stored_pseudonym_of(answer: Result<String, PseudonymizerError>) -> (stored: String)
    ensures
        stored@ == stored_pseudonym(text_view(answer)),
{
    match answer {
        Ok(pseudo) => first_letter_to_upper(pseudo),
        Err(_) => String::new(),
    }
}

/// Where a service stands in its life. It only moves forward: a terminated
/// service is not used again, a new one is opened.
#[derive(Debug, Clone, Copy, PartialEq, Eq, Structural)]
pub enum ServiceState {
    /// Visits are accepted.
    Running,
    /// A close was asked for: the worker drains what is buffered.
    Closing,
    /// The worker has stopped.
    Terminated,
}

/// What became of a visit that was handed to the service.
#[derive(Debug, Clone, Copy, PartialEq, Eq, Structural)]
pub enum InsertOutcome {
    /// The visit waits in the queue for the worker.
    Enqueued,
    /// The visit was dropped: the queue was full, or the service is closing.
    Dropped,
    /// The worker has terminated.
    PipelineDead,
}

/// A service as contracts see it: its state, the visits that wait, oldest
/// first, and the number of visits that may wait at once.
pub struct Pipeline {
    pub state: ServiceState,
    pub queue: Seq<BaseArticleStat>,
    pub capacity: nat,
}

/// A service that was just opened.
pub open spec fn opened_pipeline(capacity: nat) -> Pipeline {
    Pipeline { state: ServiceState::Running, queue: Seq::empty(), capacity }
}

/// What becomes of a visit handed to `p`.
pub open spec fn insert_outcome(p: Pipeline) -> InsertOutcome {
    match p.state {
        ServiceState::Terminated => InsertOutcome::PipelineDead,
        ServiceState::Closing => InsertOutcome::Dropped,
        ServiceState::Running => if p.queue.len() < p.capacity {
            InsertOutcome::Enqueued
        } else {
            InsertOutcome::Dropped
        },
    }
}

/// `p` after `event` was handed to it: the visit waits last in the queue
/// where it was taken, and nothing changes where it was not.
pub open spec fn after_insert(p: Pipeline, event: BaseArticleStat) -> Pipeline {
    if insert_outcome(p) == InsertOutcome::Enqueued {
        Pipeline { state: p.state, queue: p.queue.push(event), capacity: p.capacity }
    } else {
        p
    }
}

/// `p` after a close was asked for.
pub open spec fn after_close(p: Pipeline) -> Pipeline {
    if p.state == ServiceState::Running {
        Pipeline { state: ServiceState::Closing, queue: p.queue, capacity: p.capacity }
    } else {
        p
    }
}

/// What the worker receives from `p`: the visit that waits longest; `Close`
/// once nothing waits and the service is no longer running; nothing while a
/// running service has no visit for it.
pub open spec fn received(p: Pipeline) -> Option<StatsMessage> {
    if p.queue.len() > 0 {
        Some(StatsMessage::InsertArticleStats(p.queue[0]))
    } else if p.state != ServiceState::Running {
        Some(StatsMessage::Close)
    } else {
        None
    }
}

/// `p` after the worker received from it: the visit it got has left the
/// queue, and a closing service whose queue is empty has terminated.
pub open spec fn after_receive(p: Pipeline) -> Pipeline {
    if p.queue.len() > 0 {
        Pipeline { state: p.state, queue: p.queue.drop_first(), capacity: p.capacity }
    } else if p.state == ServiceState::Closing {
        Pipeline { state: ServiceState::Terminated, queue: p.queue, capacity: p.capacity }
    } else {
        p
    }
}

/// `p` after its worker is gone, whatever it still held.
pub open spec fn after_terminate(p: Pipeline) -> Pipeline {
    Pipeline { state: ServiceState::Terminated, queue: Seq::empty(), capacity: p.capacity }
}

/// The bounded queue between the request handlers and the worker, with the
/// state of the service. Handing a visit in never waits: a visit that finds
/// no room is dropped.
pub struct StatsService {
    tx: VecDeque<BaseArticleStat>,
    capacity: usize,
    state: ServiceState,
}

/// What the worker owns: the pseudonymizer, which no one else touches.
pub struct StatsWorker {
    pub pseudonymizer: WordlistPseudoyimizer,
}

impl View for StatsService {
    type V = Pipeline;

    closed spec fn view(&self) -> Pipeline {
        Pipeline { state: self.state, queue: self.tx@, capacity: self.capacity as nat }
    }
}

/// The error that keeps a service from opening, if any: that of the codebook
/// first, then that of the geographic database.
pub open spec fn open_error(codebook: Option<Seq<u8>>, geo_database_opened: bool) -> Option<
    StatsError,
> {
    match codebook {
        None => Some(StatsError::CodebookUnreadable),
        Some(bytes) => if newline_count(bytes) == 0 {
            Some(StatsError::EmptyCodebook)
        } else if !geo_database_opened {
            Some(StatsError::GeoDatabaseUnreadable)
        } else {
            None
        },
    }
}

impl StatsService {
    #[verifier::type_invariant]
    spec fn well_formed(self) -> bool {
        &&& self.tx@.len() <= self.capacity
        &&& self.state == ServiceState::Terminated ==> self.tx@.len() == 0
    }

    /// Opens the service: the pseudonymizer on the codebook at
    /// `wordlist_path`, whose bytes the caller has read or could not read, and
    /// an empty queue for `queue_capacity` visits. `geo_database_opened` says
    /// whether the caller could open the geographic database. Either failure
    /// keeps the service from opening.
    pub fn open(
        wordlist_path: &str,
        codebook: Option<&[u8]>,
        geo_database_opened: bool,
        queue_capacity: usize,
    ) -> (opened: Result<(StatsService, StatsWorker), StatsError>)
        ensures
            match opened {
                Ok((service, worker)) => {
                    &&& open_error(codebook_view(codebook), geo_database_opened) is None
                    &&& service@ == opened_pipeline(queue_capacity as nat)
                    &&& worker.pseudonymizer.spec_line_count()
                        == newline_count(codebook->0@)
                    &&& worker.pseudonymizer.spec_filename() == wordlist_path@
                    &&& worker.pseudonymizer.spec_cache() == Seq::<(u64, Seq<char>)>::empty()
                    &&& worker.pseudonymizer.spec_cache_capacity()
                        == CACHE_CAPACITY
                },
                Err(e) => open_error(codebook_view(codebook), geo_database_opened) == Some(e),
            },
    {
        let pseudonymizer = match WordlistPseudoyimizer::open(wordlist_path, codebook) {
            Ok(pseudonymizer) => pseudonymizer,
            Err(PseudonymizerError::EmptyCodebook) => {
                return Err(StatsError::EmptyCodebook);
            },
            Err(_) => {
                return Err(StatsError::CodebookUnreadable);
            },
        };
        if !geo_database_opened {
            return Err(StatsError::GeoDatabaseUnreadable);
        }
        let service = StatsService {
            tx: VecDeque::with_capacity(queue_capacity),
            capacity: queue_capacity,
            state: ServiceState::Running,
        };
        assert(service@.queue =~= Seq::<BaseArticleStat>::empty());
        Ok((service, StatsWorker { pseudonymizer }))
    }

    /// The state of the service.
    pub fn state(&self) -> (state: ServiceState)
        ensures
            state == self@.state,
    {
        self.state
    }

    /// Number of visits that wait, never more than the capacity.
    pub fn len(&self) -> (waiting: usize)
        ensures
            waiting == self@.queue.len(),
            waiting <= self@.capacity,
    {
        proof {
            use_type_invariant(self);
        }
        self.tx.len()
    }

    /// Hands a visit to the service without ever waiting, and says what
    /// became of it.
    pub fn submit(&mut self, article_stats: BaseArticleStat) -> (outcome: InsertOutcome)
        ensures
            outcome == insert_outcome(old(self)@),
            final(self)@ == after_insert(old(self)@, article_stats),
    {
        proof {
            use_type_invariant(&*self);
        }
        match self.state {
            ServiceState::Terminated => InsertOutcome::PipelineDead,
            ServiceState::Closing => InsertOutcome::Dropped,
            ServiceState::Running => {
                if self.tx.len() < self.capacity {
                    let mut tx = VecDeque::new();
                    std::mem::swap(&mut tx, &mut self.tx);
                    tx.push_back(article_stats);
                    self.tx = tx;
                    InsertOutcome::Enqueued
                } else {
                    InsertOutcome::Dropped
                }
            },
        }
    }

    /// Hands a visit to the service without ever waiting. A visit that finds
    /// the queue full is dropped and the call still succeeds; only a service
    /// whose worker has terminated refuses.
    pub fn insert_article_stats(&mut self, article_stats: BaseArticleStat) -> (taken: Result<
        (),
        StatsError,
    >)
        ensures
            taken == insert_result(insert_outcome(old(self)@)),
            final(self)@ == after_insert(old(self)@, article_stats),
    {
        insert_result_of(self.submit(article_stats))
    }

    /// Asks the service to close. Visits that wait are still handed to the
    /// worker, before it is told to stop.
    pub fn close(&mut self)
        ensures
            final(self)@ == after_close(old(self)@),
    {
        proof {
            use_type_invariant(&*self);
        }
        if self.state == ServiceState::Running {
            self.state = ServiceState::Closing;
        }
    }

    /// Takes the next message for the worker: the visit that waits longest,
    /// or `Close` once nothing waits and a close was asked for. `None` tells
    /// the worker of a running service to wait.
    pub fn receive(&mut self) -> (message: Option<StatsMessage>)
        ensures
            message == received(old(self)@),
            final(self)@ == after_receive(old(self)@),
    {
        proof {
            use_type_invariant(&*self);
        }
        let mut tx = VecDeque::new();
        std::mem::swap(&mut tx, &mut self.tx);
        let front = tx.pop_front();
        self.tx = tx;
        match front {
            Some(article_stats) => {
                assert(self@.queue =~= old(self)@.queue.drop_first());
                Some(StatsMessage::InsertArticleStats(article_stats))
            },
            None => {
                match self.state {
                    ServiceState::Running => None,
                    ServiceState::Closing => {
                        self.state = ServiceState::Terminated;
                        Some(StatsMessage::Close)
                    },
                    ServiceState::Terminated => Some(StatsMessage::Close),
                }
            },
        }
    }

    /// Records that the worker is gone. What still waited is lost, and every
    /// later visit is refused.
    pub fn terminate(&mut self)
        ensures
            final(self)@ == after_terminate(old(self)@),
    {
        self.tx = VecDeque::new();
        self.state = ServiceState::Terminated;
    }
}

/// What a caller is told of a visit that it handed in: a dropped visit is no
/// failure, a dead pipeline is.
pub open spec fn insert_result(outcome: InsertOutcome) -> Result<(), StatsError> {
    match outcome {
        InsertOutcome::PipelineDead => Err(StatsError::PipelineDead),
        _ => Ok(()),
    }
}

/// What a caller is told of a visit with the given outcome.
pub fn insert_result_of(outcome: InsertOutcome) -> (taken: Result<(), StatsError>)
    ensures
        taken == insert_result(outcome),
{
    match outcome {
        InsertOutcome::PipelineDead => Err(StatsError::PipelineDead),
        _ => Ok(()),
    }
}

/// A field of the place of a visit: empty where the lookup failed.
pub open spec fn place_or_empty(geo: Result<GeoInfo, GeoError>) -> (Seq<char>, Seq<char>, Seq<char>) {
    match geo {
        Ok(place) => (place.country@, place.region@, place.city@),
        Err(_) => (Seq::empty(), Seq::empty(), Seq::empty()),
    }
}

/// The place to record for a visit. A lookup that failed is not fatal: it
/// gives empty fields.
pub fn geo_info_or_empty(geo: Result<GeoInfo, GeoError>) -> (place: GeoInfo)
    ensures
        (place.country@, place.region@, place.city@) == place_or_empty(geo),
        geo is Ok ==> place == geo->Ok_0,
{
    match geo {
        Ok(place) => place,
        Err(_) => GeoInfo { country: String::new(), region: String::new(), city: String::new() },
    }
}

impl StatsWorker {
    /// Whether the codebook has to be read to enrich `event`: whether the
    /// pseudonym of its user agent or of its address is not remembered.
    pub fn needs_codebook(&self, event: &BaseArticleStat) -> (needed: bool)
        ensures
            needed == (cached_value(
                self.pseudonymizer.spec_cache(),
                digest_of(event.client_ua@),
            ) is None || cached_value(
                self.pseudonymizer.spec_cache(),
                digest_of(event.client_ip@),
            ) is None),
    {
        let ua_missing = match self.pseudonymizer.lookup(event.client_ua.as_str()) {
            Lookup::Cached(_) => false,
            Lookup::Missing(_) => true,
        };
        let ip_missing = match self.pseudonymizer.lookup(event.client_ip.as_str()) {
            Lookup::Cached(_) => false,
            Lookup::Missing(_) => true,
        };
        ua_missing || ip_missing
    }

    /// Turns a visit into the record that is stored. The user agent and the
    /// address are replaced by pseudonyms, the user agent first; the address
    /// is kept without its last component or components; the place is the one
    /// that the caller looked up. Neither a failed lookup of the place nor a
    /// failing pseudonymizer keeps the record from being made: they leave
    /// empty fields.
    pub fn enrich(
        &mut self,
        event: BaseArticleStat,
        geo: Result<GeoInfo, GeoError>,
        codebook: Option<&[u8]>,
    ) -> (record: ArticleStat)
        ensures
            record.id == -1,
            record.article_id == event.article_id,
            record.date is None,
            record.client_ua == event.client_ua,
            record.client_ip@ == first_bytes(event.client_ip@),
            (record.country@, record.region@, record.city@) == place_or_empty(geo),
            record.pseudo_ua@ == stored_pseudonym(
                pseudonym(
                    old(self).pseudonymizer.spec_cache(),
                    old(self).pseudonymizer.spec_line_count(),
                    codebook_view(codebook),
                    event.client_ua@,
                ),
            ),
            record.pseudo_ip@ == stored_pseudonym(
                pseudonym(
                    cache_after_user_agent(*old(self), codebook_view(codebook), event),
                    old(self).pseudonymizer.spec_line_count(),
                    codebook_view(codebook),
                    event.client_ip@,
                ),
            ),
            final(self).pseudonymizer.spec_cache() == cache_after(
                cache_after_user_agent(*old(self), codebook_view(codebook), event),
                old(self).pseudonymizer.spec_cache_capacity(),
                event.client_ip@,
                pseudonym(
                    cache_after_user_agent(*old(self), codebook_view(codebook), event),
                    old(self).pseudonymizer.spec_line_count(),
                    codebook_view(codebook),
                    event.client_ip@,
                ),
            ),
            final(self).pseudonymizer.spec_cache_capacity() == old(
                self,
            ).pseudonymizer.spec_cache_capacity(),
            final(self).pseudonymizer.spec_line_count() == old(self).pseudonymizer.spec_line_count(),
            final(self).pseudonymizer.spec_filename() == old(self).pseudonymizer.spec_filename(),
    {
        let pseudo_ua = pseudonymize(&mut self.pseudonymizer, event.client_ua.as_str(), codebook);
        let pseudo_ip = pseudonymize(&mut self.pseudonymizer, event.client_ip.as_str(), codebook);
        assemble(event, geo, pseudo_ua, pseudo_ip)
    }
}

/// Puts the record of a visit together from the visit, the place that was
/// looked up for it and the two pseudonyms. The address is kept without its
/// last component or components; a failed lookup of the place leaves its
/// fields empty. The id is not known yet and is -1, and the date is left to
/// the moment of storing.
pub fn assemble(
    event: BaseArticleStat,
    geo: Result<GeoInfo, GeoError>,
    pseudo_ua: String,
    pseudo_ip: String,
) -> (record: ArticleStat)
    ensures
        record.id == -1,
        record.article_id == event.article_id,
        record.pseudo_ua == pseudo_ua,
        record.pseudo_ip == pseudo_ip,
        record.client_ua == event.client_ua,
        record.client_ip@ == first_bytes(event.client_ip@),
        record.date is None,
        (record.country@, record.region@, record.city@) == place_or_empty(geo),
{
    let place = geo_info_or_empty(geo);
    let client_ip = extract_first_bytes(event.client_ip.as_str());
    ArticleStat {
        id: -1,
        article_id: event.article_id,
        pseudo_ua,
        pseudo_ip,
        client_ua: event.client_ua,
        client_ip,
        date: None,
        country: place.country,
        region: place.region,
        city: place.city,
    }
}

/// The cache of `worker` once it has answered for the user agent of `event`.
pub open spec fn cache_after_user_agent(
    worker: StatsWorker,
    codebook: Option<Seq<u8>>,
    event: BaseArticleStat,
) -> Seq<(u64, Seq<char>)> {
    cache_after(
        worker.pseudonymizer.spec_cache(),
        worker.pseudonymizer.spec_cache_capacity(),
        event.client_ua@,
        pseudonym(
            worker.pseudonymizer.spec_cache(),
            worker.pseudonymizer.spec_line_count(),
            codebook,
            event.client_ua@,
        ),
    )
}

/// How far a service has come in its life.
pub open spec fn state_rank(state: ServiceState) -> nat {
    match state {
        ServiceState::Running => 0,
        ServiceState::Closing => 1,
        ServiceState::Terminated => 2,
    }
}

/// A service only moves forward. Whatever happens to it, it never returns to
/// an earlier state: a service that is closing or has terminated does not
/// run again. Its capacity stays what it was, and where no more visits
/// waited than it has room for, no more do afterwards.
pub proof fn lemma_service_moves_forward(p: Pipeline, event: BaseArticleStat)
    ensures
        state_rank(after_insert(p, event).state) >= state_rank(p.state),
        state_rank(after_close(p).state) >= state_rank(p.state),
        state_rank(after_receive(p).state) >= state_rank(p.state),
        state_rank(after_terminate(p).state) >= state_rank(p.state),
        after_insert(p, event).capacity == p.capacity,
        after_close(p).capacity == p.capacity,
        after_receive(p).capacity == p.capacity,
        after_terminate(p).capacity == p.capacity,
        p.queue.len() <= p.capacity ==> {
            &&& after_insert(p, event).queue.len() <= p.capacity
            &&& after_close(p).queue.len() <= p.capacity
            &&& after_receive(p).queue.len() <= p.capacity
            &&& after_terminate(p).queue.len() <= p.capacity
        },
{
}

/// `p` after the visits of `events` were handed to it in turn.
pub open spec fn after_inserts(p: Pipeline, events: Seq<BaseArticleStat>) -> Pipeline
    decreases events.len(),
{
    if events.len() == 0 {
        p
    } else {
        after_insert(after_inserts(p, events.drop_last()), events.last())
    }
}

/// A running service keeps the visits handed to it for as long as it has
/// room, in the order in which they came, and drops the others.
pub proof fn lemma_after_inserts(p: Pipeline, events: Seq<BaseArticleStat>)
    requires
        p.state == ServiceState::Running,
        p.queue.len() <= p.capacity,
    ensures
        after_inserts(p, events).state == ServiceState::Running,
        after_inserts(p, events).capacity == p.capacity,
        after_inserts(p, events).queue == p.queue + events.take(
            if events.len() <= p.capacity - p.queue.len() {
                events.len() as int
            } else {
                p.capacity - p.queue.len()
            },
        ),
    decreases events.len(),
{
    if events.len() == 0 {
        assert(p.queue + events.take(0) =~= p.queue);
    } else {
        lemma_after_inserts(p, events.drop_last());
        let room = p.capacity - p.queue.len();
        let before = after_inserts(p, events.drop_last());
        if events.len() <= room {
            assert(events.drop_last().take(events.len() - 1) =~= events.drop_last());
            assert(events.take(events.len() as int) =~= events);
            assert(before.queue.push(events.last()) =~= p.queue + events);
        } else {
            assert(events.drop_last().take(room) =~= events.take(room));
        }
    }
}

/// Backpressure. One visit more than the queue has room for is handed to a
/// service that was just opened, and the worker takes none meanwhile. Then
/// every call succeeds, the visits that found room wait in the order in which
/// they came, and the last one was dropped.
pub proof fn lemma_backpressure(capacity: nat, events: Seq<BaseArticleStat>)
    requires
        events.len() == capacity + 1,
    ensures
        forall|i: int|
            0 <= i <= capacity ==> insert_result(
                #[trigger] insert_outcome(after_inserts(opened_pipeline(capacity), events.take(i))),
            ) == Ok::<(), StatsError>(()),
        forall|i: int|
            0 <= i < capacity ==> #[trigger] insert_outcome(
                after_inserts(opened_pipeline(capacity), events.take(i)),
            ) == InsertOutcome::Enqueued,
        insert_outcome(after_inserts(opened_pipeline(capacity), events.take(capacity as int)))
            == InsertOutcome::Dropped,
        after_inserts(opened_pipeline(capacity), events).queue == events.take(capacity as int),
{
    let start = opened_pipeline(capacity);
    assert forall|i: int| 0 <= i <= capacity implies #[trigger] insert_outcome(
        after_inserts(start, events.take(i)),
    ) == if i < capacity {
        InsertOutcome::Enqueued
    } else {
        InsertOutcome::Dropped
    } by {
        lemma_after_inserts(start, events.take(i));
    }
    lemma_after_inserts(start, events);
    assert(start.queue + events.take(capacity as int) =~= events.take(capacity as int));
}

/// The messages that the worker receives from `p` from now on, if nothing
/// more is handed in: up to the `Close` that stops it, or up to the point
/// where a running service leaves it waiting.
pub open spec fn worker_trace(p: Pipeline) -> Seq<StatsMessage>
    decreases p.queue.len(),
{
    if p.queue.len() > 0 {
        seq![StatsMessage::InsertArticleStats(p.queue[0])] + worker_trace(after_receive(p))
    } else {
        match received(p) {
            Some(message) => seq![message],
            None => Seq::empty(),
        }
    }
}

/// The worker of a service that is no longer running receives each visit that
/// waits, oldest first, and then `Close`.
pub proof fn lemma_worker_trace(p: Pipeline)
    requires
        p.state != ServiceState::Running,
    ensures
        worker_trace(p) == p.queue.map_values(|e: BaseArticleStat| StatsMessage::InsertArticleStats(e))
            + seq![StatsMessage::Close],
    decreases p.queue.len(),
{
    let wrap = |e: BaseArticleStat| StatsMessage::InsertArticleStats(e);
    if p.queue.len() > 0 {
        lemma_worker_trace(after_receive(p));
        assert(worker_trace(p) =~= p.queue.map_values(wrap) + seq![StatsMessage::Close]);
    } else {
        assert(worker_trace(p) =~= p.queue.map_values(wrap) + seq![StatsMessage::Close]);
    }
}

/// Ordered shutdown. Visits are handed to a running service that has room for
/// them, and then a close is asked for. The worker receives every visit that
/// waited and every visit handed in, in the order in which they came, and
/// only then `Close`: the close never overtakes a visit.
pub proof fn lemma_ordered_shutdown(p: Pipeline, events: Seq<BaseArticleStat>)
    requires
        p.state == ServiceState::Running,
        p.queue.len() + events.len() <= p.capacity,
    ensures
        worker_trace(after_close(after_inserts(p, events))) == (p.queue + events).map_values(
            |e: BaseArticleStat| StatsMessage::InsertArticleStats(e),
        ) + seq![StatsMessage::Close],
{
    lemma_after_inserts(p, events);
    assert(events.take(events.len() as int) =~= events);
    lemma_worker_trace(after_close(after_inserts(p, events)));
}

} // verus!
