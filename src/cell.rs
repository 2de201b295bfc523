//! The shared state cell: one writer publishes, any number of readers
//! take snapshots of the latest value.
use vstd::prelude::*;
use vstd::string::*;

verus! {

#[verifier::external_type_specification]
#[verifier::external_body]
#[verifier::reject_recursive_types(T)]
pub struct ExWatchSender<T>(tokio::sync::watch::Sender<T>);

#[verifier::external_type_specification]
#[verifier::external_body]
#[verifier::reject_recursive_types(T)]
pub struct ExWatchReceiver<T>(tokio::sync::watch::Receiver<T>);

/// The value that a watch channel currently holds, as seen through its sender.
pub uninterp spec fn watch_latest(tx: tokio::sync::watch::Sender<String>) -> Seq<char>;

/// Relies on `watch::Sender::new`: the channel starts out holding `init`.
#[verifier::external_body]
fn watch_new(init: String) -> (r: tokio::sync::watch::Sender<String>)
    ensures
        watch_latest(r) == init@,
{
    tokio::sync::watch::Sender::new(init)
}

/// Relies on `watch::Sender::send_replace`: the channel holds `value`
/// afterwards, whether or not a receiver exists, and the previous value is
/// handed back.
#[verifier::external_body]
fn watch_send_replace(tx: &mut tokio::sync::watch::Sender<String>, value: String) -> (r: String)
    ensures
        watch_latest(*final(tx)) == value@,
        r@ == watch_latest(*old(tx)),
{
    tx.send_replace(value)
}

/// Relies on `watch::Sender::borrow`: the sender always sees the value most
/// recently sent, which is cloned out.
#[verifier::external_body]
fn watch_borrow_clone(tx: &tokio::sync::watch::Sender<String>) -> (r: String)
    ensures
        r@ == watch_latest(*tx),
{
    tx.borrow().clone()
}

/// Relies on `watch::Sender::subscribe`: a new read handle on the channel.
#[verifier::external_body]
fn watch_subscribe(tx: &tokio::sync::watch::Sender<String>) -> (r: tokio::sync::watch::Receiver<String>) {
    tx.subscribe()
}

/// The placeholder held before any value has been observed.
pub const NO_DATA: &'static str = "<no data>";

/// The payload as viewers see it.
pub struct SharedData {
    pub latest: String,
}

impl SharedData {
    pub fn new(latest: String) -> (r: SharedData)
        ensures
            r.latest@ == latest@,
    {
        SharedData { latest }
    }
}

/// A single-slot broadcast cell. Holding it is holding the only writer:
/// the sender is never cloned or handed out, so every value it holds was put
/// there through `publish`.
pub struct LatestCell {
    tx: tokio::sync::watch::Sender<String>,
}

impl LatestCell {
    /// The value that a snapshot taken now returns.
    pub closed spec fn view(&self) -> Seq<char> {
        watch_latest(self.tx)
    }

    /// A cell that holds `init`.
    pub fn new(init: String) -> (r: LatestCell)
        ensures
            r@ == init@,
    {
        LatestCell { tx: watch_new(init) }
    }

    /// A cell that holds the placeholder `NO_DATA`.
    pub fn empty() -> (r: LatestCell)
        ensures
            r@ == NO_DATA@,
    {
        LatestCell::new(String::from_str(NO_DATA))
    }

    /// Replaces the latest value. Never fails, also when no reader exists.
    pub fn publish(&mut self, value: String)
        ensures
            final(self)@ == value@,
    {
        let _previous = watch_send_replace(&mut self.tx, value);
    }

    /// An independent copy of the latest value.
    pub fn snapshot(&self) -> (r: SharedData)
        ensures
            r.latest@ == self@,
    {
        SharedData { latest: watch_borrow_clone(&self.tx) }
    }

    /// A read handle for a viewer on another task. Its reads never block
    /// the writer.
    pub fn subscribe(&self) -> tokio::sync::watch::Receiver<String> {
        watch_subscribe(&self.tx)
    }
}

/// The value of a cell that held `start` after `pubs` were published in
/// order, one publish at a time.
pub open spec fn after_publishes(start: Seq<char>, pubs: Seq<Seq<char>>) -> Seq<char>
    decreases pubs.len(),
{
    if pubs.len() == 0 {
        start
    } else {
        after_publishes(pubs[0], pubs.drop_first())
    }
}

/// After any non-empty sequence of publishes, a snapshot returns the value of
/// the last one: no older value ever comes back.
pub proof fn lemma_snapshot_is_last_publish(start: Seq<char>, pubs: Seq<Seq<char>>)
    requires
        pubs.len() > 0,
    ensures
        after_publishes(start, pubs) == pubs.last(),
    decreases pubs.len(),
{
    let rest = pubs.drop_first();
    if rest.len() > 0 {
        lemma_snapshot_is_last_publish(pubs[0], rest);
        assert(rest.last() == pubs.last());
    } else {
        assert(after_publishes(pubs[0], rest) == pubs[0]);
    }
}

} // verus!
