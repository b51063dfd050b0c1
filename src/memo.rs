//! Memos: a list of numbered notes with their creation time.

use vstd::prelude::*;
use crate::clock::{local_time_text, TIMESTAMP_FORMAT};
use crate::text::{decimal, decimal_text};

verus! {

/// One note.
#[derive(Debug, Clone)]
pub struct Memo {
    pub id: u32,
    pub content: String,
    pub created_at: String,
}

/// What a memo holds.
pub ghost struct MemoView {
    pub id: u32,
    pub content: Seq<char>,
    pub created_at: Seq<char>,
}

impl View for Memo {
    type V = MemoView;

    open spec fn view(&self) -> MemoView {
        MemoView { id: self.id, content: self.content@, created_at: self.created_at@ }
    }
}

impl Memo {
    /// A copy of this memo.
    pub fn duplicate(&self) -> (r: Memo)
        ensures
            r@ == self@,
    {
        Memo { id: self.id, content: self.content.clone(), created_at: self.created_at.clone() }
    }
}

/// The views of a sequence of memos.
pub open spec fn memos_view(ms: Seq<Memo>) -> Seq<MemoView> {
    ms.map_values(|m: Memo| m@)
}

/// The largest id among `ms`, or 0 when there is none.
pub open spec fn max_id(ms: Seq<MemoView>) -> nat
    decreases ms.len(),
{
    if ms.len() == 0 {
        0
    } else {
        let rest = max_id(ms.drop_last());
        if ms.last().id as nat > rest {
            ms.last().id as nat
        } else {
            rest
        }
    }
}

/// The memos of `ms` whose id is not `id`, in order.
pub open spec fn without_id(ms: Seq<MemoView>, id: u32) -> Seq<MemoView>
    decreases ms.len(),
{
    if ms.len() == 0 {
        Seq::empty()
    } else if ms.last().id == id {
        without_id(ms.drop_last(), id)
    } else {
        without_id(ms.drop_last(), id).push(ms.last())
    }
}

/// Whether some memo of `ms` has id `id`.
pub open spec fn has_id(ms: Seq<MemoView>, id: u32) -> bool {
    exists|i: int| 0 <= i < ms.len() && ms[i].id == id
}

/// All memos, in order of creation.
#[derive(Debug)]
pub struct MemoList {
    pub memos: Vec<Memo>,
}

impl View for MemoList {
    type V = Seq<MemoView>;

    open spec fn view(&self) -> Seq<MemoView> {
        memos_view(self.memos@)
    }
}

proof fn lemma_without_len(ms: Seq<MemoView>, id: u32)
    ensures
        without_id(ms, id).len() <= ms.len(),
        without_id(ms, id).len() == ms.len() <==> !has_id(ms, id),
    decreases ms.len(),
{
    if ms.len() > 0 {
        lemma_without_len(ms.drop_last(), id);
        if has_id(ms.drop_last(), id) {
            let i = choose|i: int| 0 <= i < ms.drop_last().len() && ms.drop_last()[i].id == id;
            assert(ms[i].id == id);
        }
        if has_id(ms, id) && ms.last().id != id {
            let i = choose|i: int| 0 <= i < ms.len() && ms[i].id == id;
            assert(ms.drop_last()[i].id == id);
        }
    }
}

impl MemoList {
    /// An empty list.
    pub fn new() -> (r: MemoList)
        ensures
            r@ == Seq::<MemoView>::empty(),
    {
        let r = MemoList { memos: Vec::new() };
        assert(r@ =~= Seq::<MemoView>::empty());
        r
    }

    /// The largest id in the list, or 0 when it is empty.
    pub fn max_id(&self) -> (r: u32)
        ensures
            r as nat == max_id(self@),
    {
        let mut best: u32 = 0;
        let mut i: usize = 0;
        while i < self.memos.len()
            invariant
                i <= self.memos@.len(),
                best as nat == max_id(self@.take(i as int)),
            decreases self.memos@.len() - i,
        {
            assert(self@.take(i as int + 1).drop_last() =~= self@.take(i as int));
            if self.memos[i].id > best {
                best = self.memos[i].id;
            }
            i += 1;
        }
        assert(self@.take(i as int) =~= self@);
        best
    }

    /// The id that the next memo gets: one more than the largest id.
    pub fn next_id(&self) -> (r: u32)
        requires
            max_id(self@) < u32::MAX,
        ensures
            r as nat == max_id(self@) + 1,
    {
        self.max_id() + 1
    }

    /// Appends a memo with the next id and the given creation time.
    pub fn add_memo_at(&mut self, content: String, created_at: String)
        requires
            max_id(old(self)@) < u32::MAX,
        ensures
            final(self)@ == old(self)@.push(
                MemoView {
                    id: (max_id(old(self)@) + 1) as u32,
                    content: content@,
                    created_at: created_at@,
                },
            ),
    {
        let id = self.next_id();
        self.memos.push(Memo { id, content, created_at });
        assert(final(self)@ =~= old(self)@.push(
            MemoView { id: (max_id(old(self)@) + 1) as u32, content: content@, created_at: created_at@ },
        ));
    }

    /// Appends a memo with the next id, stamped with the local time now.
    pub fn add_memo(&mut self, content: String)
        requires
            max_id(old(self)@) < u32::MAX,
        ensures
            final(self)@.len() == old(self)@.len() + 1,
            final(self)@.drop_last() == old(self)@,
            final(self)@.last().id == max_id(old(self)@) + 1,
            final(self)@.last().content == content@,
    {
        let created_at = local_time_text(TIMESTAMP_FORMAT);
        self.add_memo_at(content, created_at);
        assert(final(self)@.drop_last() =~= old(self)@);
    }

    /// Removes every memo with id `id`; tells whether there was one.
    pub fn remove_memo(&mut self, id: u32) -> (r: bool)
        ensures
            final(self)@ == without_id(old(self)@, id),
            r == has_id(old(self)@, id),
    {
        let mut kept: Vec<Memo> = Vec::new();
        let mut i: usize = 0;
        while i < self.memos.len()
            invariant
                i <= self.memos@.len(),
                self@ == old(self)@,
                memos_view(kept@) == without_id(self@.take(i as int), id),
            decreases self.memos@.len() - i,
        {
            assert(self@.take(i as int + 1).drop_last() =~= self@.take(i as int));
            if self.memos[i].id != id {
                kept.push(self.memos[i].duplicate());
            }
            assert(memos_view(kept@) =~= without_id(self@.take(i as int + 1), id));
            i += 1;
        }
        assert(self@.take(i as int) =~= self@);
        let before = self.memos.len();
        self.memos = kept;
        proof {
            lemma_without_len(old(self)@, id);
        }
        self.memos.len() < before
    }
}

/// The line that shows one memo.
pub open spec fn memo_line(m: MemoView) -> Seq<char> {
    "[id:"@ + decimal(m.id as nat) + "] "@ + m.content + " - "@ + m.created_at
}

/// The lines of `ms`, joined by line breaks.
pub open spec fn joined_memo_lines(ms: Seq<MemoView>) -> Seq<char>
    decreases ms.len(),
{
    if ms.len() == 0 {
        Seq::empty()
    } else if ms.len() == 1 {
        memo_line(ms[0])
    } else {
        joined_memo_lines(ms.drop_last()) + "\n"@ + memo_line(ms.last())
    }
}

/// The listing of a memo list.
pub open spec fn memo_listing(ms: Seq<MemoView>) -> Seq<char> {
    if ms.len() == 0 {
        "📭 メモはありません"@
    } else {
        "📝 メモ一覧:\n"@ + joined_memo_lines(ms) + "\n"@
    }
}

/// The line that shows one memo: `[id:<id>] <content> - <created_at>`.
pub fn format_memo_line(memo: &Memo) -> (r: String)
    ensures
        r@ == memo_line(memo@),
{
    let mut s = String::from_str("[id:");
    let id_text = decimal_text(memo.id as usize);
    s.append(id_text.as_str());
    s.append("] ");
    s.append(memo.content.as_str());
    s.append(" - ");
    s.append(memo.created_at.as_str());
    s
}

/// The listing of all memos, one line each, or a note that there are none.
pub fn list_memos_formatted(memo_list: &MemoList) -> (r: String)
    ensures
        r@ == memo_listing(memo_list@),
{
    let n = memo_list.memos.len();
    if n == 0 {
        return String::from_str("📭 メモはありません");
    }
    let ghost ms = memo_list@;
    let mut body = String::new();
    let mut i: usize = 0;
    while i < n
        invariant
            n == ms.len(),
            ms == memo_list@,
            i <= n,
            body@ == joined_memo_lines(ms.take(i as int)),
        decreases n - i,
    {
        assert(ms.take(i as int + 1).drop_last() =~= ms.take(i as int));
        let line = format_memo_line(&memo_list.memos[i]);
        if i > 0 {
            body.append("\n");
        }
        body.append(line.as_str());
        proof {
            if i == 0 {
                assert(body@ =~= joined_memo_lines(ms.take(1)));
            } else {
                assert(body@ =~= joined_memo_lines(ms.take(i as int + 1)));
            }
        }
        i += 1;
    }
    assert(ms.take(n as int) =~= ms);
    let mut out = String::from_str("📝 メモ一覧:\n");
    out.append(body.as_str());
    out.append("\n");
    out
}

} // verus!
