//! Stores that keep everything in memory, each under its id.

use vstd::prelude::*;
use vstd::hash_map::StringHashMap;
use crate::ask::{content_view, votes_view, AskError, StoredVote, Survey};
use crate::bin::{BinError, Paste};
use crate::cal::{CalError, Event};

verus! {

/// Pastes by id.
pub struct MemoryPasteStore {
    pastes: StringHashMap<Paste>,
}

impl View for MemoryPasteStore {
    type V = Map<Seq<char>, Paste>;

    closed spec fn view(&self) -> Map<Seq<char>, Paste> {
        self.pastes@
    }
}

impl MemoryPasteStore {
    /// An empty store.
    pub fn new() -> (store: Self)
        ensures
            store@ == Map::<Seq<char>, Paste>::empty(),
    {
        Self { pastes: StringHashMap::new() }
    }

    /// Stores `paste` under its id, in place of what was stored there.
    pub fn create_paste(&mut self, paste: Paste) -> (done: Result<(), BinError>)
        ensures
            done is Ok,
            final(self)@ == old(self)@.insert(paste.id@, paste),
    {
        self.pastes.insert(paste.id.clone(), paste);
        Ok(())
    }

    /// The paste stored under `id`.
    pub fn get_paste(&self, id: &str) -> (found: Result<Paste, BinError>)
        ensures
            match found {
                Ok(paste) => self@.contains_key(id@) && paste == self@[id@],
                Err(error) => !self@.contains_key(id@) && error == BinError::NotFound,
            },
    {
        match self.pastes.get(id) {
            Some(paste) => Ok(paste.duplicate()),
            None => Err(BinError::NotFound),
        }
    }

    /// Uses the paste under `id` up once and returns it as it is after
    /// that. A paste with no read left leaves the store.
    pub fn consume_paste(&mut self, id: &str) -> (found: Result<Paste, BinError>)
        ensures
            match found {
                Ok(paste) => {
                    &&& old(self)@.contains_key(id@)
                    &&& paste == old(self)@[id@].consumed()
                    &&& final(self)@ == if paste.uses == 0 {
                        old(self)@.remove(id@)
                    } else {
                        old(self)@.insert(id@, paste)
                    }
                },
                Err(error) => !old(self)@.contains_key(id@) && error == BinError::NotFound
                    && final(self)@ == old(self)@,
            },
    {
        let mut paste = match self.pastes.get(id) {
            Some(paste) => paste.duplicate(),
            None => {
                return Err(BinError::NotFound);
            },
        };
        if paste.consume() {
            self.pastes.remove(id);
        } else {
            self.pastes.insert(id.to_owned(), paste.duplicate());
        }
        Ok(paste)
    }

    /// Nothing is cleaned up in memory: a paste that has run out stays until
    /// it is read.
    pub fn cleanup_expired(&mut self) -> (done: Result<(), BinError>)
        ensures
            done is Ok,
            final(self)@ == old(self)@,
    {
        Ok(())
    }
}

/// Events by id.
pub struct MemoryEventStore {
    events: StringHashMap<Event>,
}

impl View for MemoryEventStore {
    type V = Map<Seq<char>, Event>;

    closed spec fn view(&self) -> Map<Seq<char>, Event> {
        self.events@
    }
}

impl MemoryEventStore {
    /// An empty store.
    pub fn new() -> (store: Self)
        ensures
            store@ == Map::<Seq<char>, Event>::empty(),
    {
        Self { events: StringHashMap::new() }
    }

    /// Stores `event` under its id, in place of what was stored there.
    pub fn create_event(&mut self, event: Event) -> (done: Result<(), CalError>)
        ensures
            done is Ok,
            final(self)@ == old(self)@.insert(event.id@, event),
    {
        self.events.insert(event.id.clone(), event);
        Ok(())
    }

    /// The event stored under `id`.
    pub fn get_event(&self, id: &str) -> (found: Result<Event, CalError>)
        ensures
            match found {
                Ok(event) => self@.contains_key(id@) && event == self@[id@],
                Err(error) => !self@.contains_key(id@) && error == CalError::NotFound,
            },
    {
        match self.events.get(id) {
            Some(event) => Ok(event.duplicate()),
            None => Err(CalError::NotFound),
        }
    }

    /// Uses the event under `id` up once and returns it as it is after
    /// that. An event with no read left leaves the store.
    pub fn consume_event(&mut self, id: &str) -> (found: Result<Event, CalError>)
        ensures
            match found {
                Ok(event) => {
                    &&& old(self)@.contains_key(id@)
                    &&& event == old(self)@[id@].consumed()
                    &&& final(self)@ == if event.uses == 0 {
                        old(self)@.remove(id@)
                    } else {
                        old(self)@.insert(id@, event)
                    }
                },
                Err(error) => !old(self)@.contains_key(id@) && error == CalError::NotFound
                    && final(self)@ == old(self)@,
            },
    {
        let mut event = match self.events.get(id) {
            Some(event) => event.duplicate(),
            None => {
                return Err(CalError::NotFound);
            },
        };
        if event.consume() {
            self.events.remove(id);
        } else {
            self.events.insert(id.to_owned(), event.duplicate());
        }
        Ok(event)
    }

    /// Nothing is cleaned up in memory.
    pub fn cleanup_expired(&mut self) -> (done: Result<(), CalError>)
        ensures
            done is Ok,
            final(self)@ == old(self)@,
    {
        Ok(())
    }
}

/// Two surveys hold the same: the same fields, the same question and the
/// same votes in the same order.
pub open spec fn same_survey(one: Survey, other: Survey) -> bool {
    &&& one.id == other.id
    &&& content_view(one.content) == content_view(other.content)
    &&& one.password_hash == other.password_hash
    &&& one.expiry == other.expiry
    &&& one.created_at == other.created_at
    &&& votes_view(one.votes@) == votes_view(other.votes@)
}

/// Surveys by id, each with its votes.
pub struct MemorySurveyStore {
    surveys: StringHashMap<Survey>,
}

impl View for MemorySurveyStore {
    type V = Map<Seq<char>, Survey>;

    closed spec fn view(&self) -> Map<Seq<char>, Survey> {
        self.surveys@
    }
}

impl MemorySurveyStore {
    /// An empty store.
    pub fn new() -> (store: Self)
        ensures
            store@ == Map::<Seq<char>, Survey>::empty(),
    {
        Self { surveys: StringHashMap::new() }
    }

    /// Stores `survey` under its id, in place of what was stored there.
    pub fn create_survey(&mut self, survey: Survey) -> (done: Result<(), AskError>)
        ensures
            done is Ok,
            final(self)@ == old(self)@.insert(survey.id@, survey),
    {
        self.surveys.insert(survey.id.clone(), survey);
        Ok(())
    }

    /// The survey stored under `id`, with its votes.
    pub fn get_survey(&self, id: &str) -> (found: Result<Survey, AskError>)
        ensures
            match found {
                Ok(survey) => self@.contains_key(id@) && same_survey(survey, self@[id@]),
                Err(error) => !self@.contains_key(id@) && error == AskError::NotFound,
            },
    {
        match self.surveys.get(id) {
            Some(survey) => Ok(survey.duplicate()),
            None => Err(AskError::NotFound),
        }
    }

    /// Adds `vote` to the votes of the survey under `id` and returns the
    /// survey with it.
    pub fn add_vote(&mut self, id: &str, vote: StoredVote) -> (found: Result<Survey, AskError>)
        ensures
            match found {
                Ok(survey) => {
                    &&& old(self)@.contains_key(id@)
                    &&& final(self)@.dom() == old(self)@.dom()
                    &&& forall|other: Seq<char>|
                        other != id@ && old(self)@.contains_key(other) ==> final(self)@[other]
                            == old(self)@[other]
                    &&& same_survey(survey, final(self)@[id@])
                    &&& same_survey(
                        Survey { votes: old(self)@[id@].votes, ..survey },
                        old(self)@[id@],
                    )
                    &&& votes_view(survey.votes@) == votes_view(old(self)@[id@].votes@).push(
                        crate::ask::vote_view(vote),
                    )
                },
                Err(error) => !old(self)@.contains_key(id@) && error == AskError::NotFound
                    && final(self)@ == old(self)@,
            },
    {
        let mut survey = match self.surveys.get(id) {
            Some(survey) => survey.duplicate(),
            None => {
                return Err(AskError::NotFound);
            },
        };
        let ghost before = survey.votes@;
        survey.votes.push(vote);
        assert(votes_view(survey.votes@) =~= votes_view(before).push(crate::ask::vote_view(vote)));
        let updated = survey.duplicate();
        self.surveys.insert(id.to_owned(), survey);
        assert(self@.dom() =~= old(self)@.dom());
        Ok(updated)
    }

    /// Nothing is cleaned up in memory.
    pub fn cleanup_expired(&mut self) -> (done: Result<(), AskError>)
        ensures
            done is Ok,
            final(self)@ == old(self)@,
    {
        Ok(())
    }

    /// Votes never outlive their survey in memory, so there is nothing to
    /// clean up.
    pub fn cleanup_loose_votes(&mut self) -> (done: Result<(), AskError>)
        ensures
            done is Ok,
            final(self)@ == old(self)@,
    {
        Ok(())
    }
}

} // verus!
