//! The game aggregate and the append-only message log.

use vstd::prelude::*;
use crate::maps::GameMap;
use crate::object::Color;

verus! {

/// One log entry: the text and the color it is rendered in.
pub type Message = (String, Color);

/// The view of the message log: each entry as a character sequence with
/// its color, oldest first.
pub open spec fn mv(ms: Seq<Message>) -> Seq<(Seq<char>, Color)> {
    Seq::new(ms.len(), |i: int| (ms[i].0@, ms[i].1))
}

pub broadcast proof fn lemma_mv_len(ms: Seq<Message>)
    ensures
        (#[trigger] mv(ms)).len() == ms.len(),
{
}

pub broadcast proof fn lemma_mv_push(ms: Seq<Message>, m: Message)
    ensures
        #[trigger] mv(ms.push(m)) == mv(ms).push((m.0@, m.1)),
{
    assert(mv(ms.push(m)) =~= mv(ms).push((m.0@, m.1)));
}

/// The ordered, append-only feedback history shown to the player.
pub struct Messages {
    pub messages: Vec<Message>,
}

impl Messages {
    /// An empty log.
    pub fn new() -> (r: Messages)
        ensures
            mv(r.messages@) == Seq::<(Seq<char>, Color)>::empty(),
    {
        broadcast use lemma_mv_len;

        let r = Messages { messages: Vec::new() };
        proof {
            assert(mv(r.messages@) =~= Seq::<(Seq<char>, Color)>::empty());
        }
        r
    }

    /// Append one message; everything already logged stays as it was.
    pub fn add(&mut self, message: String, color: Color)
        ensures
            mv(final(self).messages@) == mv(old(self).messages@).push((message@, color)),
    {
        broadcast use lemma_mv_push;

        self.messages.push((message, color));
    }

    /// The messages in order, oldest first; callers walk the returned
    /// vector to render the log.
    pub fn iter(&self) -> (r: &Vec<Message>)
        ensures
            r == &self.messages,
    {
        &self.messages
    }
}

/// The game aggregate: the map and the message log.  The actor
/// collection is owned by the orchestrating turn loop and passed
/// alongside.
pub struct Game {
    pub map: GameMap,
    pub messages: Messages,
}

} // verus!
