//! The conversation store: an ordered, append-only sequence of turns.
use vstd::prelude::*;
use crate::chat::{all_nonempty, copy_turns, ChatContent, Turn, turns_view};

verus! {

/// The turns of a conversation, in the order in which they are sent.
pub struct Conversation {
    turns: Vec<ChatContent>,
}

impl View for Conversation {
    type V = Seq<Turn>;

    closed spec fn view(&self) -> Seq<Turn> {
        turns_view(self.turns@)
    }
}

impl Conversation {
    /// Well-formed: every turn has at least one part.
    pub closed spec fn wf(&self) -> bool {
        all_nonempty(self@)
    }

    /// An empty conversation.
    pub fn new() -> (r: Conversation)
        ensures
            r.wf(),
            r@ == Seq::<Turn>::empty(),
    {
        let r = Conversation { turns: Vec::new() };
        assert(r@ =~= Seq::<Turn>::empty());
        r
    }

    /// A conversation that begins with the given turns.
    pub fn from_turns(turns: Vec<ChatContent>) -> (r: Conversation)
        requires
            all_nonempty(turns_view(turns@)),
        ensures
            r.wf(),
            r@ == turns_view(turns@),
    {
        Conversation { turns }
    }

    /// The number of turns.
    pub fn len(&self) -> (r: usize)
        ensures
            r == self@.len(),
    {
        self.turns.len()
    }

    /// Adds a turn at the end.
    pub fn append(&mut self, turn: ChatContent)
        requires
            old(self).wf(),
            turn.parts.len() > 0,
        ensures
            final(self).wf(),
            final(self)@ == old(self)@.push(turn@),
    {
        let ghost before = self@;
        let ghost t = turn@;
        self.turns.push(turn);
        assert(self@ =~= before.push(t));
    }

    /// Adds the given turns at the end, in their order.
    pub fn extend(&mut self, turns: Vec<ChatContent>)
        requires
            old(self).wf(),
            all_nonempty(turns_view(turns@)),
        ensures
            final(self).wf(),
            final(self)@ == old(self)@ + turns_view(turns@),
    {
        let ghost before = self@;
        let ghost added = turns_view(turns@);
        let mut turns = turns;
        let mut moved: Vec<ChatContent> = Vec::new();
        while turns.len() > 0
            invariant
                turns_view(turns@) + turns_view(moved@).reverse() == added,
            decreases turns.len(),
        {
            let ghost t = turns_view(turns@);
            let ghost m = turns_view(moved@);
            let last = turns.pop().unwrap();
            let ghost lv = last@;
            moved.push(last);
            assert(t =~= turns_view(turns@).push(lv));
            assert(turns_view(moved@) =~= m.push(lv));
            assert(turns_view(moved@).reverse() =~= seq![lv] + m.reverse());
            assert(turns_view(turns@) + turns_view(moved@).reverse() =~= t + m.reverse());
        }
        assert(turns_view(moved@).reverse() =~= added);
        while moved.len() > 0
            invariant
                self@ + turns_view(moved@).reverse() == before + added,
            decreases moved.len(),
        {
            let ghost s = self@;
            let ghost m = turns_view(moved@);
            let next = moved.pop().unwrap();
            let ghost nv = next@;
            self.turns.push(next);
            assert(m =~= turns_view(moved@).push(nv));
            assert(self@ =~= s.push(nv));
            assert(m.reverse() =~= seq![nv] + turns_view(moved@).reverse());
            assert(self@ + turns_view(moved@).reverse() =~= s + m.reverse());
        }
        assert(turns_view(moved@).reverse() =~= Seq::<Turn>::empty());
        assert(self@ =~= before + added);
    }

    /// A copy of all turns, in order; later appends do not change it.
    pub fn snapshot(&self) -> (r: Vec<ChatContent>)
        requires
            self.wf(),
        ensures
            turns_view(r@) == self@,
            all_nonempty(turns_view(r@)),
    {
        copy_turns(&self.turns)
    }
}

/// Two snapshots of a conversation with no append between them are equal,
/// turn for turn.
pub proof fn lemma_snapshots_agree(c: Conversation, first: Seq<ChatContent>, second: Seq<ChatContent>)
    requires
        turns_view(first) == c@,
        turns_view(second) == c@,
    ensures
        turns_view(first) == turns_view(second),
        first.len() == second.len(),
        forall|i: int| 0 <= i < first.len() ==> (#[trigger] first[i])@ == second[i]@,
{
    assert(turns_view(first).len() == first.len());
    assert(turns_view(second).len() == second.len());
    assert forall|i: int| 0 <= i < first.len() implies (#[trigger] first[i])@ == second[i]@ by {
        assert(turns_view(first)[i] == first[i]@);
        assert(turns_view(second)[i] == second[i]@);
    }
}

} // verus!
