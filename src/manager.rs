use vstd::prelude::*;

use crate::catalog::{
    has_topic, lemma_listed_types_at, listed_types, listing_view, names_unique, CatalogView,
    DiscoveryError, TopicCatalog, TopicEntry,
};
use crate::render::{pretty_json_of, to_pretty_text};

verus! {

/// What the display cell shows before the selected topic has delivered anything.
pub const NO_DATA: &'static str = "no data received";

/// The mathematical state of a subscription manager.
pub struct ManagerState {
    /// Topics from the last successful refresh, in listing order.
    pub catalog: CatalogView,
    /// The generation handed out by the latest selection (0 before any).
    pub generation: nat,
    /// The live subscription: its generation, topic and message type.
    pub active: Option<(nat, Seq<char>, Seq<char>)>,
    /// The latest displayed message; `None` is "no data yet".
    pub latest: Option<Seq<char>>,
}

impl ManagerState {
    /// A fresh manager: nothing listed, selected or received.
    pub open spec fn initial() -> ManagerState {
        ManagerState { catalog: Seq::empty(), generation: 0, active: None, latest: None }
    }

    /// Catalog names are unique and a live subscription carries the newest generation.
    pub open spec fn wf(self) -> bool {
        &&& names_unique(self.catalog)
        &&& (self.active matches Some(a) ==> a.0 == self.generation)
    }

    /// Messages tagged with generation `g` may reach the display cell.
    pub open spec fn accepts(self, g: nat) -> bool {
        self.active matches Some(a) && a.0 == g
    }

    /// The generation of the live subscription, if any.
    pub open spec fn active_generation(self) -> Option<nat> {
        match self.active {
            Some(a) => Some(a.0),
            None => None,
        }
    }

    /// Selecting a topic: the old subscription is dropped, a new generation
    /// is bound to (topic, type), and the cell returns to "no data yet".
    pub open spec fn after_select(self, topic: Seq<char>, msg_type: Seq<char>) -> ManagerState {
        ManagerState {
            generation: self.generation + 1,
            active: Some((self.generation + 1, topic, msg_type)),
            latest: None,
            ..self
        }
    }

    /// A run of selections, applied in order.
    pub open spec fn after_selects(self, picks: Seq<(Seq<char>, Seq<char>)>) -> ManagerState
        decreases picks.len(),
    {
        if picks.len() == 0 {
            self
        } else {
            self.after_selects(picks.drop_last()).after_select(picks.last().0, picks.last().1)
        }
    }

    /// A message of generation `g`, rendered to `text` (`None`: it could not be).
    /// Only a rendered message of the live generation changes the cell.
    pub open spec fn after_delivery(self, g: nat, text: Option<Seq<char>>) -> ManagerState {
        if self.accepts(g) && text is Some {
            ManagerState { latest: text, ..self }
        } else {
            self
        }
    }

    /// The subscription of generation `g` could not be started: it is not left live.
    pub open spec fn after_start_failed(self, g: nat) -> ManagerState {
        if self.accepts(g) {
            ManagerState { active: None, ..self }
        } else {
            self
        }
    }

    /// Shutting down leaves no live subscription.
    pub open spec fn after_shutdown(self) -> ManagerState {
        ManagerState { active: None, ..self }
    }

    /// A successful refresh replaces the catalog wholesale.
    pub open spec fn after_refresh(self, c: CatalogView) -> ManagerState {
        ManagerState { catalog: c, ..self }
    }

    /// The text the display shows.
    pub open spec fn display(self) -> Seq<char> {
        match self.latest {
            Some(t) => t,
            None => NO_DATA@,
        }
    }
}

/// The live subscription: which generation it was started as, and what it listens to.
pub struct Subscription {
    pub generation: u64,
    pub topic: String,
    pub msg_type: String,
}

/// Why a topic could not be selected. The manager is left unchanged.
#[derive(Clone, Copy, Debug, PartialEq, Eq, Structural)]
pub enum SelectError {
    /// The catalog lists no topic of that name.
    UnknownTopic,
    /// The topic is listed without any message type.
    NoMessageType,
    /// Every generation number has been handed out.
    GenerationsExhausted,
}

/// Why one inbound message could not be shown. The subscription keeps running.
#[derive(Clone, Copy, Debug, PartialEq, Eq, Structural)]
pub enum MessageError {
    /// The middleware reported a failure for this message.
    Receive,
    /// The payload could not be rendered as text.
    Render,
}

/// What became of one inbound message.
#[derive(Clone, Copy, Debug, PartialEq, Eq, Structural)]
pub enum Delivery {
    /// Written to the display cell.
    Displayed,
    /// From a cancelled subscription: discarded.
    Stale,
    /// From the live subscription but unusable: logged by the caller, cell unchanged.
    Malformed,
}

/// What the caller must do after a selection: stop `cancelled` if any, then
/// subscribe to (topic, msg_type) and tag its messages with `generation`.
pub struct StartRequest {
    pub generation: u64,
    pub topic: String,
    pub msg_type: String,
    pub cancelled: Option<u64>,
}

/// The message text of a rendering outcome.
pub open spec fn rendered_text(rendered: Result<String, MessageError>) -> Option<Seq<char>> {
    match rendered {
        Ok(t) => Some(t@),
        Err(_) => None,
    }
}

/// Owns the single live subscription, the topic catalog and the display cell.
pub struct SubscriptionManager {
    catalog: TopicCatalog,
    generation: u64,
    active: Option<Subscription>,
    latest: Option<String>,
}

impl View for SubscriptionManager {
    type V = ManagerState;

    closed spec fn view(&self) -> ManagerState {
        ManagerState {
            catalog: self.catalog@,
            generation: self.generation as nat,
            active: match self.active {
                Some(s) => Some((s.generation as nat, s.topic@, s.msg_type@)),
                None => None,
            },
            latest: match self.latest {
                Some(t) => Some(t@),
                None => None,
            },
        }
    }
}

impl SubscriptionManager {
    /// The manager's invariant.
    pub open spec fn wf(&self) -> bool {
        self@.wf()
    }

    /// A manager with an empty catalog, no subscription and no data.
    pub fn new() -> (r: SubscriptionManager)
        ensures
            r@ == ManagerState::initial(),
            r.wf(),
    {
        SubscriptionManager {
            catalog: TopicCatalog::new(),
            generation: 0,
            active: None,
            latest: None,
        }
    }

    /// Cancels the live subscription, if any, and binds a new generation to
    /// (topic, msg_type). Selecting the pair that is already live restarts it.
    pub fn select_topic(&mut self, topic: String, msg_type: String) -> (r: Result<
        StartRequest,
        SelectError,
    >)
        requires
            old(self).wf(),
        ensures
            final(self).wf(),
            r is Err <==> old(self)@.generation == u64::MAX,
            r matches Err(e) ==> e == SelectError::GenerationsExhausted && final(self)@ == old(
                self,
            )@,
            r matches Ok(req) ==> {
                &&& final(self)@ == old(self)@.after_select(topic@, msg_type@)
                &&& req.generation == final(self)@.generation
                &&& req.topic@ == topic@
                &&& req.msg_type@ == msg_type@
                &&& (req.cancelled matches Some(g) ==> old(self)@.active_generation() == Some(
                    g as nat,
                ))
                &&& (req.cancelled is None ==> old(self)@.active is None)
            },
    {
        if self.generation == u64::MAX {
            return Err(SelectError::GenerationsExhausted);
        }
        let cancelled = match &self.active {
            Some(s) => Some(s.generation),
            None => None,
        };
        self.active = None;
        self.generation = self.generation + 1;
        self.latest = None;
        let req = StartRequest {
            generation: self.generation,
            topic: topic.clone(),
            msg_type: msg_type.clone(),
            cancelled,
        };
        self.active = Some(Subscription { generation: self.generation, topic, msg_type });
        Ok(req)
    }
    /// Selects a listed topic with the first message type the catalog
    /// declares for it.
    pub fn select_listed(&mut self, name: &String) -> (r: Result<StartRequest, SelectError>)
        requires
            old(self).wf(),
        ensures
            final(self).wf(),
            !has_topic(old(self)@.catalog, name@) ==> r == Err::<StartRequest, SelectError>(
                SelectError::UnknownTopic,
            ),
            has_topic(old(self)@.catalog, name@) && listed_types(old(self)@.catalog, name@).len()
                == 0 ==> r == Err::<StartRequest, SelectError>(SelectError::NoMessageType),
            has_topic(old(self)@.catalog, name@) && listed_types(old(self)@.catalog, name@).len()
                > 0 && old(self)@.generation == u64::MAX ==> r == Err::<StartRequest, SelectError>(
                SelectError::GenerationsExhausted,
            ),
            has_topic(old(self)@.catalog, name@) && listed_types(old(self)@.catalog, name@).len()
                > 0 && old(self)@.generation < u64::MAX ==> r is Ok,
            r is Err ==> final(self)@ == old(self)@,
            r matches Ok(req) ==> {
                &&& has_topic(old(self)@.catalog, name@)
                &&& listed_types(old(self)@.catalog, name@).len() > 0
                &&& final(self)@ == old(self)@.after_select(
                    name@,
                    listed_types(old(self)@.catalog, name@)[0],
                )
                &&& req.generation == final(self)@.generation
                &&& req.topic@ == name@
                &&& req.msg_type@ == listed_types(old(self)@.catalog, name@)[0]
                &&& (req.cancelled matches Some(g) ==> old(self)@.active_generation() == Some(
                    g as nat,
                ))
                &&& (req.cancelled is None ==> old(self)@.active is None)
            },
    {
        match self.catalog.find(name) {
            None => Err(SelectError::UnknownTopic),
            Some(i) => {
                let entry = self.catalog.entry(i);
                proof {
                    lemma_listed_types_at(self@.catalog, i as int);
                }
                if entry.types.len() == 0 {
                    return Err(SelectError::NoMessageType);
                }
                let msg_type = entry.types[0].clone();
                assert(msg_type@ == listed_types(self@.catalog, name@)[0]);
                self.select_topic(name.clone(), msg_type)
            },
        }
    }

    /// Whether messages tagged `generation` belong to the live subscription.
    pub fn is_current(&self, generation: u64) -> (r: bool)
        ensures
            r == self@.accepts(generation as nat),
    {
        match &self.active {
            Some(s) => s.generation == generation,
            None => false,
        }
    }

    /// Takes one message of `generation`, already rendered: a rendered message
    /// of the live subscription replaces the cell; anything else leaves it.
    pub fn on_rendered(&mut self, generation: u64, rendered: Result<String, MessageError>) -> (r:
        Delivery)
        requires
            old(self).wf(),
        ensures
            final(self).wf(),
            final(self)@ == old(self)@.after_delivery(generation as nat, rendered_text(rendered)),
            r == (if !old(self)@.accepts(generation as nat) {
                Delivery::Stale
            } else if rendered is Ok {
                Delivery::Displayed
            } else {
                Delivery::Malformed
            }),
    {
        if !self.is_current(generation) {
            return Delivery::Stale;
        }
        match rendered {
            Ok(text) => {
                self.latest = Some(text);
                Delivery::Displayed
            },
            Err(_) => Delivery::Malformed,
        }
    }

    /// Takes one payload of `generation`: a stale one is dropped unread; a live
    /// one is rendered as pretty-printed JSON and shown.
    pub fn on_message(&mut self, generation: u64, payload: &serde_json::Value) -> (r: Delivery)
        requires
            old(self).wf(),
        ensures
            final(self).wf(),
            !old(self)@.accepts(generation as nat) ==> r == Delivery::Stale && final(self)@ == old(
                self,
            )@,
            old(self)@.accepts(generation as nat) ==> r == Delivery::Displayed && final(self)@
                == old(self)@.after_delivery(generation as nat, Some(pretty_json_of(*payload))),
    {
        if !self.is_current(generation) {
            return Delivery::Stale;
        }
        let rendered = match to_pretty_text(payload) {
            Ok(text) => Ok(text),
            Err(_) => Err(MessageError::Render),
        };
        self.on_rendered(generation, rendered)
    }

    /// The text to display now: the latest message, or the no-data text.
    pub fn current_message(&self) -> (r: String)
        ensures
            r@ == self@.display(),
    {
        match &self.latest {
            Some(t) => t.clone(),
            None => String::from_str(NO_DATA),
        }
    }

    /// Reports that starting the subscription of `generation` failed; if it is
    /// still the live one, no subscription is left live.
    pub fn start_failed(&mut self, generation: u64)
        requires
            old(self).wf(),
        ensures
            final(self).wf(),
            final(self)@ == old(self)@.after_start_failed(generation as nat),
    {
        if self.is_current(generation) {
            self.active = None;
        }
    }

    /// Stops the live subscription, if any, and returns its generation.
    pub fn shutdown(&mut self) -> (r: Option<u64>)
        requires
            old(self).wf(),
        ensures
            final(self).wf(),
            final(self)@ == old(self)@.after_shutdown(),
            r matches Some(g) ==> old(self)@.active_generation() == Some(g as nat),
            r is None ==> old(self)@.active is None,
    {
        let r = match &self.active {
            Some(s) => Some(s.generation),
            None => None,
        };
        self.active = None;
        r
    }

    /// Replaces the catalog with a discovery listing. A failed discovery, or a
    /// listing that names a topic twice, is an error and keeps the old catalog.
    pub fn refresh_catalog(&mut self, listed: Result<Vec<TopicEntry>, DiscoveryError>) -> (r:
        Result<(), DiscoveryError>)
        requires
            old(self).wf(),
        ensures
            final(self).wf(),
            listed matches Err(e) ==> r == Err::<(), DiscoveryError>(e) && final(self)@ == old(
                self,
            )@,
            listed matches Ok(es) ==> if names_unique(listing_view(es@)) {
                r is Ok && final(self)@ == old(self)@.after_refresh(listing_view(es@))
            } else {
                r == Err::<(), DiscoveryError>(DiscoveryError::DuplicateTopic) && final(self)@
                    == old(self)@
            },
    {
        match listed {
            Err(e) => Err(e),
            Ok(es) => match TopicCatalog::from_listing(es) {
                Ok(c) => {
                    self.catalog = c;
                    Ok(())
                },
                Err(e) => Err(e),
            },
        }
    }

    /// The stored catalog.
    pub fn catalog(&self) -> (r: &TopicCatalog)
        ensures
            r@ == self@.catalog,
    {
        &self.catalog
    }

    /// The live subscription, if any.
    pub fn active(&self) -> (r: Option<&Subscription>)
        ensures
            r matches Some(s) ==> self@.active == Some(
                (s.generation as nat, s.topic@, s.msg_type@),
            ),
            r is None ==> self@.active is None,
    {
        match &self.active {
            Some(s) => Some(s),
            None => None,
        }
    }
}

} // verus!
