use vstd::prelude::*;

verus! {

/// Sign-in state notifications, queued as the platform's observer delivers
/// them and taken out by the consumer in the same order, each exactly once.
/// `Some(user)` reports a signed-in user; `None` reports that no one is
/// signed in, as after a sign-out.
pub struct AuthStateChanges<U> {
    pending: Vec<Option<U>>,
}

impl<U> View for AuthStateChanges<U> {
    type V = Seq<Option<U>>;

    closed spec fn view(&self) -> Seq<Option<U>> {
        self.pending@
    }
}

impl<U> AuthStateChanges<U> {
    /// A queue with nothing pending.
    pub fn new() -> (r: Self)
        ensures
            r@ == Seq::<Option<U>>::empty(),
    {
        AuthStateChanges { pending: Vec::new() }
    }

    /// Records one notification from the observer.
    pub fn notify(&mut self, user: Option<U>)
        ensures
            final(self)@ == old(self)@.push(user),
    {
        self.pending.push(user);
    }

    /// Takes out the oldest pending notification, or `None` when nothing is
    /// pending.
    pub fn next(&mut self) -> (r: Option<Option<U>>)
        ensures
            old(self)@.len() == 0 ==> r is None && final(self)@ == old(self)@,
            old(self)@.len() > 0 ==> r == Some(old(self)@[0]) && final(self)@ == old(
                self,
            )@.drop_first(),
    {
        if self.pending.len() == 0 {
            None
        } else {
            let u = self.pending.remove(0);
            assert(old(self)@.remove(0) =~= old(self)@.drop_first());
            Some(u)
        }
    }

    /// How many notifications are pending.
    pub fn len(&self) -> (r: usize)
        ensures
            r == self@.len(),
    {
        self.pending.len()
    }

    pub fn is_empty(&self) -> (r: bool)
        ensures
            r == (self@.len() == 0),
    {
        self.pending.len() == 0
    }
}

/// Notifications recorded one after another come out in the order they went
/// in, each once: recording `u` and then taking out everything that was
/// pending before leaves exactly `u` pending.
pub proof fn lemma_delivered_in_order<U>(pending: Seq<Option<U>>, u: Option<U>)
    ensures
        pending.push(u).skip(pending.len() as int) == seq![u],
        pending.push(u).take(pending.len() as int) == pending,
{
    assert(pending.push(u).skip(pending.len() as int) =~= seq![u]);
    assert(pending.push(u).take(pending.len() as int) =~= pending);
}

} // verus!
