use vstd::prelude::*;
use vstd::string::*;

verus! {

/// The message that greets `name`: `Hello, `, then the name as it is, then `!`.
pub open spec fn greeting_text(name: Seq<char>) -> Seq<char> {
    "Hello, "@ + name + "!"@
}

/// Builds the greeting for `name`, leaving the name untouched (no escaping).
pub fn greeting(name: &str) -> (r: String)
    ensures
        r@ == greeting_text(name@),
{
    let mut r = String::from_str("Hello, ");
    r.append(name);
    r.append("!");
    r
}

/// The notifications handed to the host so far, oldest first.
pub struct Outbox {
    messages: Vec<String>,
}

impl View for Outbox {
    type V = Seq<Seq<char>>;

    closed spec fn view(&self) -> Seq<Seq<char>> {
        self.messages@.map_values(|m: String| m@)
    }
}

impl Outbox {
    /// An outbox that holds no notification yet.
    pub fn new() -> (r: Outbox)
        ensures
            r@ == Seq::<Seq<char>>::empty(),
    {
        let r = Outbox { messages: Vec::new() };
        assert(r@ =~= Seq::<Seq<char>>::empty());
        r
    }

    /// The notifications, in the order in which they were sent.
    pub fn messages(&self) -> (r: &Vec<String>)
        ensures
            r@.map_values(|m: String| m@) == self@,
    {
        &self.messages
    }

    /// Sends `message`: it becomes the last notification of the outbox.
    pub fn notify(&mut self, message: String)
        ensures
            final(self)@ == old(self)@.push(message@),
    {
        self.messages.push(message);
        assert(final(self)@ =~= old(self)@.push(message@));
    }
}

/// Greets `name`: exactly one notification, the greeting for `name`, is sent.
pub fn greet(name: &str, outbox: &mut Outbox)
    ensures
        final(outbox)@ == old(outbox)@.push(greeting_text(name@)),
{
    let message = greeting(name);
    outbox.notify(message);
}

/// Greeting the same name twice sends two notifications, both the greeting
/// for that name: nothing is remembered from the first call.
pub proof fn lemma_greet_twice(
    before: Seq<Seq<char>>,
    between: Seq<Seq<char>>,
    after: Seq<Seq<char>>,
    name: Seq<char>,
)
    requires
        between == before.push(greeting_text(name)),
        after == between.push(greeting_text(name)),
    ensures
        after.len() == before.len() + 2,
        after.subrange(0, before.len() as int) == before,
        after[before.len() as int] == greeting_text(name),
        after[before.len() as int + 1] == greeting_text(name),
{
    assert(after.subrange(0, before.len() as int) =~= before);
}

} // verus!
