use touptek::{Error, HResult, Resolution, ResolutionList, Toupcam};

fn camera() -> Toupcam {
    Toupcam::open(None, true).unwrap()
}

fn res(width: u32, height: u32) -> Resolution {
    Resolution { width, height }
}

fn read_all(mut list: ResolutionList, answers: &[(i32, i32)]) -> Vec<Resolution> {
    while let Some(index) = list.next_index() {
        let (width, height) = answers[index as usize];
        list.push(HResult::S_OK, width, height).unwrap();
    }
    list.finish()
}

#[test]
fn a_list_of_no_resolutions_is_complete_at_once() {
    let cam = camera();
    let list = cam.preview_resolutions(HResult::S_OK).unwrap();
    assert_eq!(list.next_index(), None);
    assert_eq!(list.finish(), vec![]);
}

#[test]
fn a_list_asks_for_each_index_in_turn() {
    let cam = camera();
    let mut list = cam.preview_resolutions(HResult::S_FALSE).unwrap();
    assert_eq!(list.next_index(), Some(0));
    assert_eq!(list.push(HResult::S_OK, 2048, 1536), Ok(()));
    assert_eq!(list.next_index(), None);
    assert_eq!(list.finish(), vec![res(2048, 1536)]);
}

#[test]
fn still_resolutions_are_read_the_same_way() {
    let cam = camera();
    let list = cam.still_resolutions(HResult::S_FALSE).unwrap();
    assert_eq!(read_all(list, &[(4096, 3072)]), vec![res(4096, 3072)]);
    let list = cam.still_resolutions(HResult::S_OK).unwrap();
    assert_eq!(read_all(list, &[]), vec![]);
}

#[test]
fn a_failed_count_begins_no_list() {
    let cam = camera();
    assert_eq!(
        cam.preview_resolutions(HResult::E_FAIL).map(|_| ()),
        Err(Error::Native(HResult::E_FAIL))
    );
    assert_eq!(
        cam.still_resolutions(HResult::from_code(3)).map(|_| ()),
        Err(Error::Native(HResult::Other(3)))
    );
}

#[test]
fn a_failed_entry_leaves_the_list_as_it_was() {
    let cam = camera();
    let mut list = cam.preview_resolutions(HResult::S_FALSE).unwrap();
    assert_eq!(list.push(HResult::E_INVALIDARG, 1, 1), Err(Error::Native(HResult::E_INVALIDARG)));
    assert_eq!(list.next_index(), Some(0));
    assert_eq!(list.push(HResult::S_OK, 640, 480), Ok(()));
    assert_eq!(list.finish(), vec![res(640, 480)]);
}

#[test]
fn sizes_cross_the_boundary_as_signed_numbers() {
    let cam = camera();
    assert_eq!(cam.preview_size(HResult::S_OK, 1024, 768), Ok(res(1024, 768)));
    assert_eq!(cam.preview_size(HResult::S_OK, -1, 0), Ok(res(u32::MAX, 0)));
    assert_eq!(cam.preview_size(HResult::E_FAIL, 1024, 768), Err(Error::Native(HResult::E_FAIL)));
    assert_eq!(cam.set_preview_size(res(1024, 768)), (1024, 768));
    assert_eq!(cam.set_preview_size(res(u32::MAX, 0x8000_0000)), (-1, i32::MIN));
}

#[test]
fn a_size_that_is_written_is_read_back() {
    let cam = camera();
    for r in [res(0, 0), res(2048, 1536), res(u32::MAX, 1), res(0x8000_0000, 0x7fff_ffff)] {
        let (width, height) = cam.set_preview_size(r);
        assert_eq!(cam.preview_size(HResult::S_OK, width, height), Ok(r));
    }
}

#[test]
fn the_preview_size_index() {
    let cam = camera();
    assert_eq!(cam.preview_size_index(HResult::S_OK, 2), Ok(2));
    assert_eq!(cam.preview_size_index(HResult::S_OK, u32::MAX), Ok(u32::MAX as usize));
    assert_eq!(cam.preview_size_index(HResult::E_FAIL, 2), Err(Error::Native(HResult::E_FAIL)));
    assert_eq!(cam.set_preview_size_index(0), 0);
    assert_eq!(cam.set_preview_size_index(3), 3);
    assert_eq!(cam.set_preview_size_index(u32::MAX as usize), u32::MAX);
}

#[test]
fn an_index_keeps_its_low_32_bits() {
    let cam = camera();
    if usize::BITS >= 64 {
        let big = (1u64 << 32) as usize + 5;
        assert_eq!(cam.set_preview_size_index(big), 5);
        assert_eq!(cam.snap_index(big), 5);
    }
    assert_eq!(cam.snap_index(7), 7);
    assert_eq!(cam.snap_index(0), 0);
}

#[test]
fn snap_finds_the_first_match() {
    let cam = camera();
    let still = vec![res(4096, 3072), res(2048, 1536), res(1024, 768), res(2048, 1536)];
    assert_eq!(cam.snap(res(4096, 3072), &still), Ok(0));
    assert_eq!(cam.snap(res(2048, 1536), &still), Ok(1));
    assert_eq!(cam.snap(res(1024, 768), &still), Ok(2));
}

#[test]
fn snap_fails_without_a_match() {
    let cam = camera();
    let still = vec![res(4096, 3072), res(2048, 1536)];
    assert_eq!(
        cam.snap(res(1536, 2048), &still),
        Err(Error::UnknownResolution(res(1536, 2048)))
    );
    assert_eq!(cam.snap(res(4096, 1536), &still), Err(Error::UnknownResolution(res(4096, 1536))));
    assert_eq!(cam.snap(res(1, 1), &[]), Err(Error::UnknownResolution(res(1, 1))));
}
