use vstd::prelude::*;

verus! {

/// One page of a map: its number and its bytes (empty until the page is allocated).
struct Mpage {
    pub mpage_num: u64,
    pub data: Vec<u8>,
}

/// `page` with `bytes` written over it from byte `at` on.
pub open spec fn spliced(page: Seq<u8>, at: int, bytes: Seq<u8>) -> Seq<u8> {
    Seq::new(page.len(), |j: int| if at <= j < at + bytes.len() { bytes[j - at] } else { page[j] })
}

/// The byte that fills a freshly allocated page.
pub const MPAGE_FILL: u8 = 0x0F;

/// An in-memory map: a fixed number of pages of `page_size` bytes, each allocated on demand.
pub struct MpageMap {
    mpage_arr: Vec<Mpage>,
    page_size: u64,
    num_pages: u64,
}

impl MpageMap {
    /// The bytes of every page, in page order (an empty sequence for a page not yet allocated).
    pub closed spec fn pages(&self) -> Seq<Seq<u8>> {
        Seq::new(self.mpage_arr@.len(), |i: int| self.mpage_arr@[i].data@)
    }

    /// The size a page gets when it is allocated.
    pub closed spec fn page_size(&self) -> u64 {
        self.page_size
    }

    /// The number of pages.
    pub closed spec fn num_pages(&self) -> u64 {
        self.num_pages
    }

    /// Every page is numbered by its position.
    pub closed spec fn numbered(&self) -> bool {
        forall|i: int| 0 <= i < self.mpage_arr@.len() ==> #[trigger] self.mpage_arr@[i].mpage_num == i
    }

    /// The map holds exactly `num_pages` pages, numbered in order.
    pub open spec fn wf(&self) -> bool {
        &&& self.pages().len() == self.num_pages()
        &&& self.numbered()
    }

    /// A map without pages.
    pub fn new() -> (r: Self)
        ensures
            r.wf(),
            r.num_pages() == 0,
            r.page_size() == 0,
            r.pages() == Seq::<Seq<u8>>::empty(),
    {
        let r = MpageMap { mpage_arr: Vec::new(), page_size: 0, num_pages: 0 };
        assert(r.pages() =~= Seq::<Seq<u8>>::empty());
        r
    }

    /// Replaces the pages by `num_mpages` unallocated pages of `mpage_size` bytes.
    pub fn Init(&mut self, num_mpages: u64, mpage_size: u64)
        ensures
            final(self).wf(),
            final(self).num_pages() == num_mpages,
            final(self).page_size() == mpage_size,
            final(self).pages() == Seq::new(num_mpages as nat, |i: int| Seq::<u8>::empty()),
    {
        let mut mPageArr: Vec<Mpage> = Vec::new();
        let mut mpage: u64 = 0;
        while mpage < num_mpages
            invariant
                mpage <= num_mpages,
                mPageArr@.len() == mpage,
                forall|i: int| 0 <= i < mpage ==> (#[trigger] mPageArr@[i]).mpage_num == i && mPageArr@[i].data@.len() == 0,
            decreases num_mpages - mpage,
        {
            mPageArr.push(Mpage { mpage_num: mpage, data: Vec::new() });
            mpage = mpage + 1;
        }
        self.mpage_arr = mPageArr;
        self.page_size = mpage_size;
        self.num_pages = num_mpages;
        assert(self.pages() =~= Seq::new(num_mpages as nat, |i: int| Seq::<u8>::empty())) by {
            assert forall|i: int| 0 <= i < num_mpages implies self.pages()[i] =~= Seq::<u8>::empty() by {
                assert(self.mpage_arr@[i].data@.len() == 0);
            }
        }
    }

    /// After `Init(n, s)` every page below `n` is there and unallocated, whatever the map held
    /// before: `GetMpage(i)` hands out an empty page, and `AllocateMpage(i)` succeeds with a page
    /// of `s` bytes of `MPAGE_FILL` (when `s` fits in memory).
    pub proof fn lemma_init_pages_fresh(m: MpageMap, n: u64, s: u64, i: int)
        requires
            m.wf(),
            m.num_pages() == n,
            m.page_size() == s,
            m.pages() == Seq::new(n as nat, |j: int| Seq::<u8>::empty()),
            0 <= i < n,
        ensures
            m.pages()[i].len() == 0,
            m.pages()[i] == Seq::<u8>::empty(),
            (i as u64) < m.num_pages(),
            m.pages().len() == n,
    {
    }

    /// Allocates page `page_num`, filled with `MPAGE_FILL`, and hands it out; `None`, changing
    /// nothing, when the page is already allocated.
    pub fn AllocateMpage(&mut self, page_num: u64) -> (r: Option<&mut Vec<u8>>)
        requires
            old(self).wf(),
            page_num < old(self).num_pages(),
            old(self).page_size() <= usize::MAX,
        ensures
            final(self).num_pages() == old(self).num_pages(),
            final(self).page_size() == old(self).page_size(),
            final(self).numbered(),
            old(self).pages()[page_num as int].len() != 0 ==> r is None && final(self).pages() == old(self).pages(),
            old(self).pages()[page_num as int].len() == 0 ==> (r matches Some(p) && p@ == Seq::new(
                old(self).page_size() as nat,
                |i: int| MPAGE_FILL,
            ) && final(self).pages() == old(self).pages().update(page_num as int, final(p)@)),
    {
        let n = self.mpage_arr.len();
        let idx = page_num as usize;
        assert(idx as int == page_num as int);
        assert(self.pages()[idx as int] == self.mpage_arr@[idx as int].data@);
        if self.mpage_arr[idx].data.len() != 0 {
            return None;
        }
        let new_mpage: Vec<u8> = vec![MPAGE_FILL; self.page_size as usize];
        let slot = &mut self.mpage_arr[idx];
        slot.data = new_mpage;
        Some(&mut slot.data)
    }

    /// Hands out page `page_num`, allocated or not; `None`, changing nothing, for a page number
    /// past the last page. The page number equal to the number of pages is out of range and is
    /// excluded.
    pub fn GetMpage(&mut self, page_num: u64) -> (r: Option<&mut Vec<u8>>)
        requires
            old(self).wf(),
            page_num != old(self).num_pages(),
        ensures
            final(self).num_pages() == old(self).num_pages(),
            final(self).page_size() == old(self).page_size(),
            final(self).numbered(),
            page_num > old(self).num_pages() ==> r is None && final(self).pages() == old(self).pages(),
            page_num < old(self).num_pages() ==> (r matches Some(p) && p@ == old(self).pages()[page_num as int]
                && final(self).pages() == old(self).pages().update(page_num as int, final(p)@)),
    {
        if page_num > self.num_pages {
            None
        } else {
            let n = self.mpage_arr.len();
            let idx = page_num as usize;
            assert(idx as int == page_num as int);
            let slot = &mut self.mpage_arr[idx];
            Some(&mut slot.data)
        }
    }

    /// The size a page gets when it is allocated.
    pub fn GetSize(&self) -> (r: u64)
        ensures
            r == self.page_size(),
    {
        self.page_size
    }

    /// The number of pages.
    pub fn GetNumMpages(&self) -> (r: u64)
        ensures
            r == self.num_pages(),
    {
        self.num_pages
    }

    /// The bytes of page `page_num`.
    pub fn page_bytes(&self, page_num: u64) -> (r: &Vec<u8>)
        requires
            self.wf(),
            page_num < self.num_pages(),
        ensures
            r@ == self.pages()[page_num as int],
    {
        let n = self.mpage_arr.len();
        &self.mpage_arr[page_num as usize].data
    }

    /// Writes `bytes` into page `page_num` from byte `at` on.
    pub fn write_bytes(&mut self, page_num: u64, at: usize, bytes: &[u8])
        requires
            old(self).wf(),
            page_num < old(self).num_pages(),
            at + bytes@.len() <= old(self).pages()[page_num as int].len(),
        ensures
            final(self).wf(),
            final(self).num_pages() == old(self).num_pages(),
            final(self).page_size() == old(self).page_size(),
            final(self).pages() == old(self).pages().update(
                page_num as int,
                spliced(old(self).pages()[page_num as int], at as int, bytes@),
            ),
    {
        let n = self.mpage_arr.len();
        let idx = page_num as usize;
        assert(self.pages()[idx as int] == self.mpage_arr@[idx as int].data@);
        let ghost before = self.mpage_arr@;
        let mut data: Vec<u8> = Vec::new();
        let slot = &mut self.mpage_arr[idx];
        std::mem::swap(&mut slot.data, &mut data);
        let ghost original = data@;
        let dl = data.len();
        let mut k: usize = 0;
        while k < bytes.len()
            invariant
                k <= bytes@.len(),
                data@.len() == original.len(),
                dl == original.len(),
                at + bytes@.len() <= original.len(),
                forall|j: int| 0 <= j < data@.len() ==> #[trigger] data@[j] == (if at <= j < at + k {
                    bytes@[j - at]
                } else {
                    original[j]
                }),
            decreases bytes@.len() - k,
        {
            data.set(at + k, bytes[k]);
            k = k + 1;
        }
        let slot = &mut self.mpage_arr[idx];
        slot.data = data;
        proof {
            assert(data@ =~= spliced(original, at as int, bytes@));
            assert forall|i: int| 0 <= i < self.mpage_arr@.len() implies #[trigger] self.mpage_arr@[i].mpage_num == i by {
                assert(before[i].mpage_num == i);
            }
            assert(self.pages() =~= old(self).pages().update(page_num as int, spliced(original, at as int, bytes@)));
        }
    }
}

} // verus!
