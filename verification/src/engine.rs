//! The search engine: a storage, an index over it, and a channel that announces changes.
use crate::channel::{Channel, Delivery};
use crate::models::{DocumentEvent, DocumentEventView, DocumentView, Error, SearchDocument};
use crate::search::{Score, SearchIndex};
use crate::storage::DocumentStorage;
use tokio::sync::broadcast::Sender;
use tokio_stream::wrappers::BroadcastStream;
use vstd::prelude::*;

verus! {

/// How many events the engine keeps for subscribers that lag.
pub const EVENT_CAPACITY: usize = 100;

/// A searchable collection of documents.
pub struct SearchEngine<S: DocumentStorage, I: SearchIndex> {
    storage: S,
    index: I,
    notification_tx: Channel<DocumentEvent>,
}

/// `event` was handed to the channel after all that came before, through this sender.
pub open spec fn announced(
    sender: Sender<DocumentEvent>,
    before: Seq<Delivery<DocumentEvent>>,
    event: DocumentEventView,
    after: Seq<Delivery<DocumentEvent>>,
) -> bool {
    &&& after.len() > 0
    &&& after == before.push(after.last())
    &&& after.last().value@ == event
    &&& crate::channel::went_through(sender, after.last())
}

/// The documents among some answers, in their order.
pub open spec fn documents_read(answers: Seq<Result<SearchDocument, Error>>) -> Seq<SearchDocument>
    decreases answers.len(),
{
    if answers.len() == 0 {
        Seq::empty()
    } else {
        match answers.last() {
            Ok(doc) => documents_read(answers.drop_last()).push(doc),
            Err(_) => documents_read(answers.drop_last()),
        }
    }
}

/// The storage may answer `answers` when the documents of `hits` are read one after the other.
pub open spec fn all_read<S: DocumentStorage>(
    storage: S,
    hits: Seq<(i32, Score)>,
    answers: Seq<Result<SearchDocument, Error>>,
) -> bool {
    &&& answers.len() == hits.len()
    &&& forall|i: int| 0 <= i < hits.len() ==> storage.reads(hits[i].0, #[trigger] answers[i])
}

impl<S: DocumentStorage, I: SearchIndex> SearchEngine<S, I> {
    /// The storage.
    pub closed spec fn storage(self) -> S {
        self.storage
    }

    /// The index.
    pub closed spec fn index(self) -> I {
        self.index
    }

    /// The events that were announced, each with the number of subscribers at the time.
    pub closed spec fn events(self) -> Seq<Delivery<DocumentEvent>> {
        self.notification_tx.deliveries()
    }

    /// The tokio sender that events are announced through.
    pub closed spec fn announcer(self) -> Sender<DocumentEvent> {
        self.notification_tx.endpoint()
    }

    /// `before` becomes `after` and `outcome` is answered when a document is added.
    ///
    /// The document goes to the storage first and then to the index. Once both have it, it is
    /// announced as created. The first failure is the answer; after it nothing more is done.
    pub open spec fn adds(
        before: Self,
        title: Seq<char>,
        body: Seq<char>,
        outcome: Result<i32, Error>,
        after: Self,
    ) -> bool {
        &&& after.announcer() == before.announcer()
        &&& match outcome {
            Ok(id) => {
                &&& S::adds(&before.storage(), title, body, Ok(id), &after.storage())
                &&& I::adds(&before.index(), title, body, Ok(()), &after.index())
                &&& announced(
                    before.announcer(),
                    before.events(),
                    DocumentEventView::Created(DocumentView { id, title, body }),
                    after.events(),
                )
            },
            Err(error) => {
                &&& after.events() == before.events()
                &&& {
                    ||| {
                        &&& S::adds(&before.storage(), title, body, Err(error), &after.storage())
                        &&& after.index() == before.index()
                    }
                    ||| {
                        &&& exists|id: i32|
                            S::adds(&before.storage(), title, body, Ok(id), &after.storage())
                        &&& I::adds(&before.index(), title, body, Err(error), &after.index())
                    }
                }
            },
        }
    }

    /// `before` becomes `after` and `outcome` is answered when the document `id` is deleted.
    ///
    /// The document is taken out of the index first and then out of the storage. Once it is
    /// out of both, that is announced. The first failure is the answer; after it nothing more
    /// is done.
    pub open spec fn deletes(before: Self, id: i32, outcome: Result<(), Error>, after: Self) -> bool {
        &&& after.announcer() == before.announcer()
        &&& match outcome {
            Ok(_) => {
                &&& I::deletes(&before.index(), id, Ok(()), &after.index())
                &&& S::deletes(&before.storage(), id, Ok(()), &after.storage())
                &&& announced(
                    before.announcer(),
                    before.events(),
                    DocumentEventView::Deleted(id),
                    after.events(),
                )
            },
            Err(error) => {
                &&& after.events() == before.events()
                &&& {
                    ||| {
                        &&& I::deletes(&before.index(), id, Err(error), &after.index())
                        &&& after.storage() == before.storage()
                    }
                    ||| {
                        &&& I::deletes(&before.index(), id, Ok(()), &after.index())
                        &&& S::deletes(&before.storage(), id, Err(error), &after.storage())
                    }
                }
            },
        }
    }

    /// `outcome` is answered to `query`: the documents of the hits that the storage can still
    /// read, in the order of the hits, or the failure of the index.
    pub open spec fn finds(self, query: Seq<char>, outcome: Result<Vec<SearchDocument>, Error>) -> bool {
        match outcome {
            Ok(documents) => exists|
                hits: Vec<(i32, Score)>,
                answers: Seq<Result<SearchDocument, Error>>,
            |
                {
                    &&& self.index().finds(query, Ok(hits))
                    &&& #[trigger] all_read(self.storage(), hits@, answers)
                    &&& documents@ == documents_read(answers)
                },
            Err(error) => self.index().finds(query, Err(error)),
        }
    }

    /// An engine over a storage and an index, without subscribers.
    pub fn new(storage: S, index: I) -> (engine: Self)
        ensures
            engine.storage() == storage,
            engine.index() == index,
            engine.events() == Seq::<Delivery<DocumentEvent>>::empty(),
            crate::channel::opened(EVENT_CAPACITY, engine.announcer()),
    {
        SearchEngine { storage, index, notification_tx: Channel::new(EVENT_CAPACITY) }
    }

    /// A stream of the events that are announced from now on.
    pub fn subscribe(&self) -> (stream: BroadcastStream<DocumentEvent>)
        ensures
            crate::channel::streams(self.announcer(), stream),
    {
        BroadcastStream::new(self.notification_tx.subscribe())
    }

    /// Adds a document and returns its id.
    pub fn add_document(&mut self, title: &str, body: &str) -> (outcome: Result<i32, Error>)
        requires
            old(self).storage().has_room(),
            old(self).index().has_room(),
        ensures
            Self::adds(*old(self), title@, body@, outcome, *final(self)),
    {
        let id = match self.storage.add_document(title, body) {
            Ok(id) => id,
            Err(error) => return Err(error),
        };
        match self.index.add_document(title, body) {
            Ok(done) => assert(done == ()),
            Err(error) => return Err(error),
        }
        let doc = SearchDocument { id, title: title.to_owned(), body: body.to_owned() };
        let _ = self.notification_tx.send(DocumentEvent::Created(doc));
        assert(self.events() == old(self).events().push(self.events().last()));
        Ok(id)
    }

    /// Returns the document `id`.
    pub fn get_document(&self, id: i32) -> (outcome: Result<SearchDocument, Error>)
        ensures
            self.storage().reads(id, outcome),
    {
        self.storage.get_document(id)
    }

    /// Deletes the document `id`.
    pub fn delete_document(&mut self, id: i32) -> (outcome: Result<(), Error>)
        ensures
            Self::deletes(*old(self), id, outcome, *final(self)),
    {
        match self.index.delete_document(id) {
            Ok(done) => assert(done == ()),
            Err(error) => return Err(error),
        }
        match self.storage.delete_document(id) {
            Ok(done) => assert(done == ()),
            Err(error) => return Err(error),
        }
        let _ = self.notification_tx.send(DocumentEvent::Deleted(id));
        assert(self.events() == old(self).events().push(self.events().last()));
        Ok(())
    }

    /// The documents that fit `query`.
    pub fn search(&self, query: &str) -> (outcome: Result<Vec<SearchDocument>, Error>)
        ensures
            self.finds(query@, outcome),
    {
        let hits = match self.index.search(query) {
            Ok(hits) => hits,
            Err(error) => return Err(error),
        };
        let mut documents: Vec<SearchDocument> = Vec::new();
        let ghost mut answers: Seq<Result<SearchDocument, Error>> = Seq::empty();
        let mut n: usize = 0;
        while n < hits.len()
            invariant
                n <= hits@.len(),
                answers.len() == n,
                forall|i: int|
                    0 <= i < n ==> self.storage().reads(hits@[i].0, #[trigger] answers[i]),
                documents@ == documents_read(answers),
            decreases hits@.len() - n,
        {
            let answer = self.storage.get_document(hits[n].0);
            let ghost before = answers;
            proof {
                answers = answers.push(answer);
                assert(answers.drop_last() == before);
            }
            if let Ok(doc) = answer {
                documents.push(doc);
            }
            n += 1;
        }
        assert(all_read(self.storage(), hits@, answers));
        Ok(documents)
    }
}

/// Every successful change is announced, and a failed one is not.
pub proof fn law_changes_are_announced<S: DocumentStorage, I: SearchIndex>(
    before: SearchEngine<S, I>,
    title: Seq<char>,
    body: Seq<char>,
    added: Result<i32, Error>,
    id: i32,
    deleted: Result<(), Error>,
    after: SearchEngine<S, I>,
)
    ensures
        SearchEngine::<S, I>::adds(before, title, body, added, after) ==> after.events().len()
            == before.events().len() + if added is Ok { 1nat } else { 0 },
        SearchEngine::<S, I>::deletes(before, id, deleted, after) ==> after.events().len()
            == before.events().len() + if deleted is Ok { 1nat } else { 0 },
{
}

} // verus!
