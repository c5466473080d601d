use touptek::{
    CamOption, Error, HResult, Image, Pull, PullAction, PullReply, Resolution, Toupcam,
};

fn camera() -> Toupcam {
    Toupcam::open(None, true).unwrap()
}

fn size(width: u32, height: u32) -> PullReply {
    PullReply::Size { result: HResult::S_OK, width, height }
}

fn setting(value: u32) -> PullReply {
    PullReply::Setting { result: HResult::S_OK, value }
}

fn step(pull: &mut Pull, reply: PullReply) -> PullAction {
    assert!(pull.expects(&reply));
    pull.advance(reply)
}

#[test]
fn a_pull_begins_by_asking_for_the_size() {
    let cam = camera();
    let (_, action) = cam.pull_image(24);
    assert_eq!(action, PullAction::QuerySize { still: false, bits: 24 });
    let (_, action) = cam.pull_still_image(8);
    assert_eq!(action, PullAction::QuerySize { still: true, bits: 8 });
}

#[test]
fn a_live_image_is_pulled_in_two_phases() {
    let cam = camera();
    let (mut pull, _) = cam.pull_image(24);
    assert_eq!(step(&mut pull, size(3, 2)), PullAction::ReadOption(CamOption::Raw));
    let action = step(&mut pull, setting(0));
    assert_eq!(action, PullAction::Fill { still: false, bits: 24, buffer: vec![0; 24] });
    let mut data = vec![0u8; 24];
    data[0] = 7;
    data[23] = 9;
    let action = step(&mut pull, PullReply::Filled { result: HResult::S_OK, data: data.clone() });
    assert_eq!(
        action,
        PullAction::Deliver(Image { resolution: Resolution { width: 3, height: 2 }, bits: 24, data })
    );
}

#[test]
fn a_still_image_is_pulled_as_a_still() {
    let cam = camera();
    let (mut pull, _) = cam.pull_still_image(32);
    assert_eq!(step(&mut pull, size(4, 4)), PullAction::ReadOption(CamOption::Raw));
    assert_eq!(
        step(&mut pull, setting(0)),
        PullAction::Fill { still: true, bits: 32, buffer: vec![0; 64] }
    );
}

#[test]
fn raw_capture_asks_for_the_rgb48_option() {
    let cam = camera();
    let (mut pull, _) = cam.pull_image(8);
    step(&mut pull, size(10, 5));
    assert_eq!(step(&mut pull, setting(1)), PullAction::ReadOption(CamOption::RGB48));
    assert_eq!(
        step(&mut pull, setting(0)),
        PullAction::Fill { still: false, bits: 8, buffer: vec![0; 50] }
    );

    let (mut pull, _) = cam.pull_image(8);
    step(&mut pull, size(10, 5));
    step(&mut pull, setting(1));
    assert_eq!(
        step(&mut pull, setting(1)),
        PullAction::Fill { still: false, bits: 8, buffer: vec![0; 100] }
    );
}

#[test]
fn an_option_is_on_only_when_it_reads_one() {
    let cam = camera();
    let (mut pull, _) = cam.pull_image(8);
    step(&mut pull, size(10, 5));
    assert_eq!(
        step(&mut pull, setting(2)),
        PullAction::Fill { still: false, bits: 8, buffer: vec![0; 60] }
    );
    let (mut pull, _) = cam.pull_image(8);
    step(&mut pull, size(10, 5));
    step(&mut pull, setting(1));
    assert_eq!(
        step(&mut pull, setting(u32::MAX)),
        PullAction::Fill { still: false, bits: 8, buffer: vec![0; 50] }
    );
}

#[test]
fn a_failed_size_query_ends_the_pull() {
    let cam = camera();
    let (mut pull, _) = cam.pull_image(24);
    let reply = PullReply::Size { result: HResult::E_FAIL, width: 0, height: 0 };
    assert_eq!(step(&mut pull, reply), PullAction::Fail(Error::Native(HResult::E_FAIL)));
    assert!(!pull.expects(&size(1, 1)));
    assert!(!pull.expects(&setting(0)));
}

#[test]
fn a_failed_option_read_ends_the_pull() {
    let cam = camera();
    let (mut pull, _) = cam.pull_image(24);
    step(&mut pull, size(3, 2));
    let reply = PullReply::Setting { result: HResult::E_NOTIMPL, value: 1 };
    assert_eq!(step(&mut pull, reply), PullAction::Fail(Error::Native(HResult::E_NOTIMPL)));
    assert!(!pull.expects(&setting(0)));

    let (mut pull, _) = cam.pull_image(24);
    step(&mut pull, size(3, 2));
    step(&mut pull, setting(1));
    let reply = PullReply::Setting { result: HResult::E_UNEXPECTED, value: 0 };
    assert_eq!(step(&mut pull, reply), PullAction::Fail(Error::Native(HResult::E_UNEXPECTED)));
}

#[test]
fn a_failed_fill_ends_the_pull() {
    let cam = camera();
    let (mut pull, _) = cam.pull_image(8);
    step(&mut pull, size(4, 1));
    step(&mut pull, setting(0));
    let reply = PullReply::Filled { result: HResult::E_POINTER, data: vec![0; 4] };
    assert_eq!(step(&mut pull, reply), PullAction::Fail(Error::Native(HResult::E_POINTER)));
    assert!(!pull.expects(&PullReply::Filled { result: HResult::S_OK, data: vec![0; 4] }));
}

#[test]
fn an_unsupported_depth_fails_before_any_buffer_is_made() {
    let cam = camera();
    let (mut pull, action) = cam.pull_image(16);
    assert_eq!(action, PullAction::QuerySize { still: false, bits: 16 });
    step(&mut pull, size(640, 480));
    assert_eq!(step(&mut pull, setting(0)), PullAction::Fail(Error::UnsupportedBits(16)));
    assert!(!pull.expects(&PullReply::Filled { result: HResult::S_OK, data: vec![] }));
}

#[test]
fn an_unsupported_depth_is_no_matter_in_raw_capture() {
    let cam = camera();
    let (mut pull, _) = cam.pull_image(16);
    step(&mut pull, size(8, 2));
    step(&mut pull, setting(1));
    assert_eq!(
        step(&mut pull, setting(1)),
        PullAction::Fill { still: false, bits: 16, buffer: vec![0; 32] }
    );
}

#[test]
fn a_frame_too_large_fails() {
    let cam = camera();
    let (mut pull, _) = cam.pull_image(48);
    step(&mut pull, size(u32::MAX, u32::MAX));
    assert_eq!(step(&mut pull, setting(0)), PullAction::Fail(Error::FrameTooLarge));
}

#[test]
fn a_pull_expects_the_answer_to_its_last_action() {
    let cam = camera();
    let (mut pull, _) = cam.pull_image(8);
    assert!(pull.expects(&size(1, 1)));
    assert!(!pull.expects(&setting(0)));
    assert!(!pull.expects(&PullReply::Filled { result: HResult::S_OK, data: vec![] }));
    step(&mut pull, size(4, 2));
    assert!(!pull.expects(&size(1, 1)));
    assert!(pull.expects(&setting(0)));
    step(&mut pull, setting(0));
    assert!(!pull.expects(&setting(0)));
    assert!(pull.expects(&PullReply::Filled { result: HResult::S_OK, data: vec![1; 8] }));
    assert!(!pull.expects(&PullReply::Filled { result: HResult::S_OK, data: vec![1; 7] }));
    assert!(!pull.expects(&PullReply::Filled { result: HResult::S_OK, data: vec![1; 9] }));
    step(&mut pull, PullReply::Filled { result: HResult::S_FALSE, data: vec![1; 8] });
    assert!(!pull.expects(&size(1, 1)));
    assert!(!pull.expects(&setting(0)));
    assert!(!pull.expects(&PullReply::Filled { result: HResult::S_OK, data: vec![1; 8] }));
}

#[test]
fn the_second_success_code_is_success() {
    let cam = camera();
    let (mut pull, _) = cam.pull_image(8);
    let sized = PullReply::Size { result: HResult::S_FALSE, width: 4, height: 1 };
    assert_eq!(step(&mut pull, sized), PullAction::ReadOption(CamOption::Raw));
    let read = PullReply::Setting { result: HResult::S_FALSE, value: 0 };
    assert_eq!(step(&mut pull, read), PullAction::Fill { still: false, bits: 8, buffer: vec![0; 4] });
    let filled = PullReply::Filled { result: HResult::S_FALSE, data: vec![5; 4] };
    match step(&mut pull, filled) {
        PullAction::Deliver(image) => assert_eq!(image.data, vec![5; 4]),
        other => panic!("{:?}", other),
    }
}

#[test]
fn the_depth_goes_to_the_driver_as_a_signed_number() {
    let cam = camera();
    let (_, action) = cam.pull_image(u32::MAX);
    assert_eq!(action, PullAction::QuerySize { still: false, bits: -1 });
}
