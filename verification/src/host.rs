//! Floating-point work delegated to the host.
//!
//! The evaluator itself never computes with IEEE doubles: a `Float` value
//! carries its bit pattern, and every operation on it (widening an integer,
//! the four arithmetic operations, rendering as text) is a `HostQuery`.
//! Callers run the evaluator with a `HostTable` of already answered queries;
//! when an answer is missing the evaluator stops and reports the query, the
//! driver computes the answer, records it and runs again.  Evaluation is
//! deterministic in the parse tree and the table.

use vstd::prelude::*;

verus! {

/// One floating-point operation the evaluator asks the host to perform.
/// `val` is an integer operand; `a`, `b` and `bits` are IEEE double bit
/// patterns.
#[derive(Clone, Copy, PartialEq, Eq, Structural, Debug)]
pub enum HostQuery {
    /// The double nearest to the integer `val` (widening).
    FloatOfInt { val: u64 },
    /// The IEEE sum of `a` and `b`.
    FloatAdd { a: u64, b: u64 },
    /// The IEEE difference of `a` and `b`.
    FloatSub { a: u64, b: u64 },
    /// The IEEE product of `a` and `b`.
    FloatMul { a: u64, b: u64 },
    /// The IEEE quotient of `a` and `b`.
    FloatDiv { a: u64, b: u64 },
    /// The decimal rendering of the double with the given bit pattern.
    FloatText { bits: u64 },
}

impl DeepView for HostQuery {
    type V = HostQuery;

    open spec fn deep_view(&self) -> HostQuery {
        *self
    }
}

/// A host answer: a bit pattern for the arithmetic queries, text for
/// `FloatText`.
#[derive(Clone, Debug)]
pub enum HostReply {
    Bits { bits: u64 },
    Text { text: String },
}

/// Mathematical model of a `HostReply`.
pub enum HostReplyV {
    Bits { bits: u64 },
    Text { text: Seq<char> },
}

impl DeepView for HostReply {
    type V = HostReplyV;

    open spec fn deep_view(&self) -> HostReplyV {
        match self {
            HostReply::Bits { bits } => HostReplyV::Bits { bits: *bits },
            HostReply::Text { text } => HostReplyV::Text { text: text@ },
        }
    }
}

/// The model of a host table: answered queries in order.
pub type TableV = Seq<(HostQuery, HostReplyV)>;

/// Answered host queries, consulted in order; the first entry for a query
/// wins.
#[derive(Debug)]
pub struct HostTable {
    pub entries: Vec<(HostQuery, HostReply)>,
}

impl DeepView for HostTable {
    type V = Seq<(HostQuery, HostReplyV)>;

    open spec fn deep_view(&self) -> Seq<(HostQuery, HostReplyV)> {
        self.entries.deep_view()
    }
}

/// The first bit-pattern answer recorded for `q` at or after position `i`.
pub open spec fn bits_answer_from(t: Seq<(HostQuery, HostReplyV)>, q: HostQuery, i: int) -> Option<
    u64,
>
    decreases t.len() - i,
{
    if i < 0 || i >= t.len() {
        None
    } else if t[i].0 == q && t[i].1 is Bits {
        Some(t[i].1->Bits_bits)
    } else {
        bits_answer_from(t, q, i + 1)
    }
}

/// The first bit-pattern answer recorded for `q`.
pub open spec fn bits_answer(t: Seq<(HostQuery, HostReplyV)>, q: HostQuery) -> Option<u64> {
    bits_answer_from(t, q, 0)
}

/// The first text answer recorded for `q` at or after position `i`.
pub open spec fn text_answer_from(t: Seq<(HostQuery, HostReplyV)>, q: HostQuery, i: int) -> Option<
    Seq<char>,
>
    decreases t.len() - i,
{
    if i < 0 || i >= t.len() {
        None
    } else if t[i].0 == q && t[i].1 is Text {
        Some(t[i].1->Text_text)
    } else {
        text_answer_from(t, q, i + 1)
    }
}

/// The first text answer recorded for `q`.
pub open spec fn text_answer(t: Seq<(HostQuery, HostReplyV)>, q: HostQuery) -> Option<Seq<char>> {
    text_answer_from(t, q, 0)
}

impl HostTable {
    /// An empty table: every query is still unanswered.
    pub fn new() -> (r: HostTable)
        ensures
            r.deep_view() == Seq::<(HostQuery, HostReplyV)>::empty(),
    {
        let r = HostTable { entries: Vec::new() };
        proof {
            assert(r.deep_view() =~= Seq::<(HostQuery, HostReplyV)>::empty());
        }
        r
    }

    /// Records an answer at the end of the table.
    pub fn push(&mut self, q: HostQuery, reply: HostReply)
        ensures
            final(self).deep_view() == old(self).deep_view().push((q, reply.deep_view())),
    {
        let ghost old_view = self.deep_view();
        self.entries.push((q, reply));
        proof {
            assert(self.deep_view() =~= old_view.push((q, reply.deep_view())));
        }
    }

    fn bits_at(&self, q: HostQuery, i: usize) -> (r: Option<u64>)
        requires
            i <= self.entries.len(),
        ensures
            r == bits_answer_from(self.deep_view(), q, i as int),
        decreases self.entries.len() - i,
    {
        if i >= self.entries.len() {
            None
        } else {
            let (eq, er) = &self.entries[i];
            if *eq == q {
                match er {
                    HostReply::Bits { bits } => Some(*bits),
                    HostReply::Text { .. } => self.bits_at(q, i + 1),
                }
            } else {
                self.bits_at(q, i + 1)
            }
        }
    }

    /// The recorded bit-pattern answer for `q`, if any.
    pub fn bits(&self, q: HostQuery) -> (r: Option<u64>)
        ensures
            r == bits_answer(self.deep_view(), q),
    {
        self.bits_at(q, 0)
    }

    fn text_at(&self, q: HostQuery, i: usize) -> (r: Option<String>)
        requires
            i <= self.entries.len(),
        ensures
            r.deep_view() == text_answer_from(self.deep_view(), q, i as int),
        decreases self.entries.len() - i,
    {
        if i >= self.entries.len() {
            None
        } else {
            let (eq, er) = &self.entries[i];
            if *eq == q {
                match er {
                    HostReply::Text { text } => Some(text.clone()),
                    HostReply::Bits { .. } => self.text_at(q, i + 1),
                }
            } else {
                self.text_at(q, i + 1)
            }
        }
    }

    /// The recorded text answer for `q`, if any.
    pub fn text(&self, q: HostQuery) -> (r: Option<String>)
        ensures
            r.deep_view() == text_answer(self.deep_view(), q),
    {
        self.text_at(q, 0)
    }
}

} // verus!
