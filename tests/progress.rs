use billmock_ota::section_mark::{SectionMark, MAX_PAGE, PAGE_BITMAP_SIZE, REMAIN_OFFSET, WRITE_CHUNK_SIZE};

fn offset_of(k: usize) -> u32 {
    (REMAIN_OFFSET + k * WRITE_CHUNK_SIZE) as u32
}

#[test]
fn region_geometry() {
    assert_eq!(REMAIN_OFFSET, 0x3000);
    assert_eq!(MAX_PAGE, 208);
    assert_eq!(PAGE_BITMAP_SIZE, 26);
}

#[test]
fn marking_chunk_offsets_sets_bit_k() {
    for k in 0..MAX_PAGE {
        let mut m = SectionMark::new();
        m.mark_offset(offset_of(k));
        assert_eq!(m.bitmap[k >> 3], 1u8 << (k & 7));
        for j in 0..MAX_PAGE {
            assert_eq!(m.is_marked(j), j == k);
        }
    }
}

#[test]
fn popcount_counts_distinct_marks() {
    let mut m = SectionMark::new();
    assert_eq!(m.popcount(), 0);
    for k in 0..MAX_PAGE {
        m.mark_offset(offset_of(k));
        assert_eq!(m.popcount(), k + 1);
    }
    m.mark_offset(offset_of(5));
    assert_eq!(m.popcount(), MAX_PAGE);
}

#[test]
fn mark_within_page_hits_same_bit() {
    let mut m = SectionMark::new();
    m.mark_offset(offset_of(3) + 255);
    assert!(m.is_marked(3));
    assert_eq!(m.popcount(), 1);
}

#[test]
fn unmark_and_clear() {
    let mut m = SectionMark::new();
    m.mark_offset(offset_of(0));
    m.mark_offset(offset_of(207));
    m.unmark_offset(offset_of(0));
    assert!(!m.is_marked(0));
    assert!(m.is_marked(207));
    assert_eq!(m.bitmap[25], 0x80);
    m.clear();
    assert_eq!(m.popcount(), 0);
    assert_eq!(m.bitmap, [0u8; 26]);
}
