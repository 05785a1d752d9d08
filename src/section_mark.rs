//! Progress bitmap: one bit per chunk-sized page of the application region.
use vstd::prelude::*;

verus! {

/// Absolute address at which the microcontroller maps its flash.
pub const FLASH_BASE: usize = 0x0800_0000;

/// Total size of the on-chip flash, in bytes.
pub const FLASH_SIZE: usize = 0x1_0000;

/// Address at which this updater image is linked.
pub const BOOTLOADER_ORIGIN: usize = 0x0800_0000;

/// Flash reserved for this updater image, in bytes.
pub const BOOTLOADER_LENGTH: usize = 0x3000;

/// Offset (from the flash base) of the first byte of the application region.
pub const REMAIN_OFFSET: usize = BOOTLOADER_ORIGIN + BOOTLOADER_LENGTH - FLASH_BASE;

/// Size of the application region, in bytes.
pub const REMAIN_SIZE: usize = FLASH_SIZE - REMAIN_OFFSET;

/// Size of the payload carried by one write-chunk request.
pub const WRITE_CHUNK_SIZE: usize = 256;

/// `log2(WRITE_CHUNK_SIZE)`.
pub const CHUNK_BIT_IDX: usize = 8;

/// `log2(8)`: bits per bitmap byte.
pub const BYTE_BIT_IDX: usize = 3;

/// Number of chunk-sized pages in the application region.
pub const MAX_PAGE: usize = REMAIN_SIZE / WRITE_CHUNK_SIZE;

/// Bytes needed to hold one bit per page.
pub const PAGE_BITMAP_SIZE: usize = (MAX_PAGE + 7) / 8;

/// Bit `k % 8` of byte `k / 8`: whether page `k` is marked.
pub open spec fn page_bit(bitmap: Seq<u8>, k: int) -> bool {
    (bitmap[k / 8] >> ((k % 8) as u8)) & 1u8 == 1u8
}

/// Whether `offset` lies inside the application region.
pub open spec fn in_region(offset: u32) -> bool {
    REMAIN_OFFSET <= offset < REMAIN_OFFSET + REMAIN_SIZE
}

/// Index of the page that holds `offset`.
pub open spec fn page_of(offset: u32) -> int {
    (offset - REMAIN_OFFSET) / (WRITE_CHUNK_SIZE as int)
}

/// Number of `true` entries in `s`.
pub open spec fn count_marked(s: Seq<bool>) -> nat
    decreases s.len(),
{
    if s.len() == 0 {
        0
    } else {
        count_marked(s.drop_last()) + if s.last() { 1nat } else { 0nat }
    }
}

/// A bitmap with no page marked.
pub open spec fn unmarked_pages() -> Seq<bool> {
    Seq::new(MAX_PAGE as nat, |k: int| false)
}

/// Marks each page of `pages`, in order, on `s`.
pub open spec fn mark_pages(s: Seq<bool>, pages: Seq<int>) -> Seq<bool>
    decreases pages.len(),
{
    if pages.len() == 0 {
        s
    } else {
        mark_pages(s, pages.drop_last()).update(pages.last(), true)
    }
}

#[derive(Clone, Copy)]
pub struct SectionMark {
    pub bitmap: [u8; PAGE_BITMAP_SIZE],
}

impl View for SectionMark {
    type V = Seq<bool>;

    /// Page `k` is marked exactly when its bit is set.
    open spec fn view(&self) -> Seq<bool> {
        Seq::new(MAX_PAGE as nat, |k: int| page_bit(self.bitmap@, k))
    }
}

proof fn lemma_set_bit(b: u8, i: u8, j: u8)
    requires
        i < 8,
        j < 8,
    ensures
        ((b | (1u8 << j)) >> i) & 1u8 == 1u8 <==> (i == j || (b >> i) & 1u8 == 1u8),
        ((b & !(1u8 << j)) >> i) & 1u8 == 1u8 <==> (i != j && (b >> i) & 1u8 == 1u8),
{
    assert(((b | (1u8 << j)) >> i) & 1u8 == 1u8 <==> (i == j || (b >> i) & 1u8 == 1u8))
        by (bit_vector)
        requires
            i < 8,
            j < 8,
    ;
    assert(((b & !(1u8 << j)) >> i) & 1u8 == 1u8 <==> (i != j && (b >> i) & 1u8 == 1u8))
        by (bit_vector)
        requires
            i < 8,
            j < 8,
    ;
}

proof fn lemma_page_index(p: u32)
    ensures
        (p as usize) >> 11usize == p / 256 / 8,
        (p >> 8u32) & 7u32 == p / 256 % 8,
{
    assert((p as usize) >> 11usize == p / 256 / 8) by (bit_vector);
    assert((p >> 8u32) & 7u32 == p / 256 % 8) by (bit_vector);
}

impl SectionMark {
    pub fn new() -> (r: Self)
        ensures
            r@ == unmarked_pages(),
    {
        let r = SectionMark { bitmap: [0u8; PAGE_BITMAP_SIZE] };
        assert forall|k: int| 0 <= k < MAX_PAGE implies !page_bit(r.bitmap@, k) by {
            let i = (k % 8) as u8;
            assert((0u8 >> i) & 1u8 == 0u8) by (bit_vector);
        }
        assert(r@ =~= unmarked_pages());
        r
    }

    /// Whether page `page` is marked.
    pub fn is_marked(&self, page: usize) -> (r: bool)
        requires
            page < MAX_PAGE,
        ensures
            r == self@[page as int],
    {
        let bit = (page % 8) as u8;
        (self.bitmap[page / 8] >> bit) & 1 == 1
    }

    /// Sets the bit of the page that holds `offset`.
    pub fn mark_offset(&mut self, offset: u32)
        requires
            in_region(offset),
        ensures
            final(self)@ == old(self)@.update(page_of(offset), true),
    {
        let p = offset - (REMAIN_OFFSET as u32);
        let idx = (p as usize) >> (CHUNK_BIT_IDX + BYTE_BIT_IDX);
        let bit = ((p >> CHUNK_BIT_IDX) & 0x7) as u8;
        proof {
            lemma_page_index(p);
        }
        self.bitmap[idx] = self.bitmap[idx] | (1u8 << bit);
        proof {
            let pg = page_of(offset);
            assert forall|k: int| 0 <= k < MAX_PAGE implies #[trigger] page_bit(self.bitmap@, k)
                == (k == pg || page_bit(old(self).bitmap@, k)) by {
                if k / 8 == idx {
                    lemma_set_bit(old(self).bitmap@[idx as int], (k % 8) as u8, bit);
                }
            }
            assert(self@ =~= old(self)@.update(pg, true));
        }
    }

    /// Clears the bit of the page that holds `offset`.
    pub fn unmark_offset(&mut self, offset: u32)
        requires
            in_region(offset),
        ensures
            final(self)@ == old(self)@.update(page_of(offset), false),
    {
        let p = offset - (REMAIN_OFFSET as u32);
        let idx = (p as usize) >> (CHUNK_BIT_IDX + BYTE_BIT_IDX);
        let bit = ((p >> CHUNK_BIT_IDX) & 0x7) as u8;
        proof {
            lemma_page_index(p);
        }
        self.bitmap[idx] = self.bitmap[idx] & !(1u8 << bit);
        proof {
            let pg = page_of(offset);
            assert forall|k: int| 0 <= k < MAX_PAGE implies #[trigger] page_bit(self.bitmap@, k)
                == (k != pg && page_bit(old(self).bitmap@, k)) by {
                if k / 8 == idx {
                    lemma_set_bit(old(self).bitmap@[idx as int], (k % 8) as u8, bit);
                }
            }
            assert(self@ =~= old(self)@.update(pg, false));
        }
    }

    /// Unmarks every page.
    pub fn clear(&mut self)
        ensures
            final(self)@ == unmarked_pages(),
    {
        let mut i: usize = 0;
        while i < PAGE_BITMAP_SIZE
            invariant
                i <= PAGE_BITMAP_SIZE,
                forall|j: int| 0 <= j < i ==> self.bitmap@[j] == 0u8,
            decreases PAGE_BITMAP_SIZE - i,
        {
            self.bitmap[i] = 0;
            i = i + 1;
        }
        assert forall|k: int| 0 <= k < MAX_PAGE implies !page_bit(self.bitmap@, k) by {
            let s = (k % 8) as u8;
            assert((0u8 >> s) & 1u8 == 0u8) by (bit_vector);
        }
        assert(self@ =~= unmarked_pages());
    }

    /// Number of marked pages.
    pub fn popcount(&self) -> (r: usize)
        ensures
            r == count_marked(self@),
    {
        let mut ret: usize = 0;
        let mut i: usize = 0;
        while i < PAGE_BITMAP_SIZE
            invariant
                i <= PAGE_BITMAP_SIZE,
                ret <= 8 * i,
                ret == count_marked(self@.take(8 * i as int)),
            decreases PAGE_BITMAP_SIZE - i,
        {
            let b = self.bitmap[i];
            let mut j: u8 = 0;
            while j < 8
                invariant
                    i < PAGE_BITMAP_SIZE,
                    j <= 8,
                    b == self.bitmap@[i as int],
                    ret <= 8 * i + j,
                    ret == count_marked(self@.take(8 * i + j)),
                decreases 8 - j,
            {
                let k = 8 * i + j as usize;
                proof {
                    let t = self@.take(k + 1);
                    assert(t.drop_last() =~= self@.take(k as int));
                    assert(t.last() == page_bit(self.bitmap@, k as int));
                    assert(k as int / 8 == i && k as int % 8 == j) by (nonlinear_arith)
                        requires
                            k == 8 * i + j,
                            j < 8,
                    ;
                }
                if (b >> j) & 1 == 1 {
                    ret = ret + 1;
                }
                j = j + 1;
            }
            i = i + 1;
        }
        assert(self@.take(8 * PAGE_BITMAP_SIZE as int) =~= self@);
        ret
    }
}

/// Marking `k` distinct pages of a bitmap with none marked leaves exactly `k`
/// pages marked.
pub proof fn lemma_popcount_counts_marks(pages: Seq<int>)
    requires
        forall|i: int| 0 <= i < pages.len() ==> 0 <= #[trigger] pages[i] < MAX_PAGE,
        forall|i: int, j: int| 0 <= i < j < pages.len() ==> pages[i] != pages[j],
    ensures
        count_marked(mark_pages(unmarked_pages(), pages)) == pages.len(),
        mark_pages(unmarked_pages(), pages).len() == MAX_PAGE,
        forall|k: int|
            0 <= k < MAX_PAGE ==> #[trigger] mark_pages(unmarked_pages(), pages)[k]
                == pages.contains(k),
    decreases pages.len(),
{
    if pages.len() == 0 {
        lemma_count_none_marked(unmarked_pages());
    } else {
        let rest = pages.drop_last();
        lemma_popcount_counts_marks(rest);
        let s = mark_pages(unmarked_pages(), rest);
        assert(!rest.contains(pages.last()));
        assert(!s[pages.last()]);
        lemma_count_marked_update(s, pages.last());
        assert(mark_pages(unmarked_pages(), pages) == s.update(pages.last(), true));
        assert forall|k: int| 0 <= k < MAX_PAGE implies #[trigger] mark_pages(
            unmarked_pages(),
            pages,
        )[k] == pages.contains(k) by {
            if k != pages.last() {
                if pages.contains(k) {
                    let i = choose|i: int| 0 <= i < pages.len() && pages[i] == k;
                    assert(rest[i] == k);
                }
            }
        }
    }
}

/// The offset `k` chunks past the start of the application region lies in the
/// region and selects page `k`.
pub proof fn lemma_chunk_offset_page(k: nat)
    requires
        k < MAX_PAGE,
    ensures
        REMAIN_OFFSET + k * WRITE_CHUNK_SIZE <= u32::MAX,
        in_region((REMAIN_OFFSET + k * WRITE_CHUNK_SIZE) as u32),
        page_of((REMAIN_OFFSET + k * WRITE_CHUNK_SIZE) as u32) == k,
{
    assert(k * WRITE_CHUNK_SIZE < REMAIN_SIZE) by (nonlinear_arith)
        requires
            k < MAX_PAGE,
    ;
    assert((k * 256) / 256 == k) by (nonlinear_arith);
}

proof fn lemma_count_none_marked(s: Seq<bool>)
    requires
        forall|k: int| 0 <= k < s.len() ==> !s[k],
    ensures
        count_marked(s) == 0,
    decreases s.len(),
{
    if s.len() > 0 {
        lemma_count_none_marked(s.drop_last());
    }
}

proof fn lemma_count_marked_update(s: Seq<bool>, k: int)
    requires
        0 <= k < s.len(),
        !s[k],
    ensures
        count_marked(s.update(k, true)) == count_marked(s) + 1,
    decreases s.len(),
{
    let u = s.update(k, true);
    if k == s.len() - 1 {
        assert(u.drop_last() =~= s.drop_last());
    } else {
        assert(u.drop_last() =~= s.drop_last().update(k, true));
        lemma_count_marked_update(s.drop_last(), k);
    }
}

} // verus!
