use touptek::{
    unmarshal_string, CamOption, Event, HResult, Image, PullAction, PullReply, Rect, Toupcam,
};

/// Answers as a camera with a 64 by 48 sensor would.
struct Driver {
    raw: u32,
    rgb48: u32,
    frames: u8,
}

impl Driver {
    fn text<const N: usize>(&self, text: &[u8]) -> (HResult, [u8; N]) {
        let mut buf = [0u8; N];
        buf[..text.len()].copy_from_slice(text);
        (HResult::S_OK, buf)
    }

    fn option(&self, option: CamOption) -> (HResult, u32) {
        match option {
            CamOption::Raw => (HResult::S_OK, self.raw),
            CamOption::RGB48 => (HResult::S_OK, self.rgb48),
            _ => (HResult::E_NOTIMPL, 0),
        }
    }

    fn fill(&mut self, buffer: &mut [u8]) -> HResult {
        self.frames += 1;
        for (i, byte) in buffer.iter_mut().enumerate() {
            *byte = (i as u8).wrapping_add(self.frames);
        }
        HResult::S_OK
    }

    fn pull(&mut self, start: (touptek::Pull, PullAction)) -> Image {
        let (mut pull, mut action) = start;
        loop {
            let reply = match action {
                PullAction::QuerySize { .. } => {
                    PullReply::Size { result: HResult::S_OK, width: 64, height: 48 }
                }
                PullAction::ReadOption(option) => {
                    let (result, value) = self.option(option);
                    PullReply::Setting { result, value }
                }
                PullAction::Fill { mut buffer, .. } => {
                    let result = self.fill(&mut buffer);
                    PullReply::Filled { result, data: buffer }
                }
                PullAction::Deliver(image) => return image,
                PullAction::Fail(e) => panic!("toupcam: {:?}", e),
            };
            assert!(pull.expects(&reply));
            action = pull.advance(reply);
        }
    }
}

#[test]
fn without_hardware() {
    println!("version: {}", unmarshal_string(b"1.6.5660.20150520\0").unwrap());
    println!("cameras: {:?}", Toupcam::enumerate(0, &[]).unwrap());
}

#[test]
fn with_hardware() {
    let mut driver = Driver { raw: 0, rgb48: 0, frames: 0 };
    let mut cam = Toupcam::open(None, true).unwrap();

    let (result, buf) = driver.text::<32>(b"TP110826145730ABCD1234FEDC56787");
    println!("serial: {:?}", cam.serial_number(result, &buf).unwrap());
    let (result, buf) = driver.text::<10>(b"20150327");
    println!("production date: {:?}", cam.production_date(result, &buf).unwrap());
    println!("preview size: {:?}", cam.preview_size(HResult::S_OK, 64, 48).unwrap());
    println!("raw format: {:?}", cam.raw_format(HResult::S_OK, 0x4752_4247, 12).unwrap());
    println!("flicker compensation: {:?}", cam.flicker_compensation(HResult::S_OK, 2).unwrap());
    println!(
        "automatic exposure: {:?} target: {:?} time: {:?} gain: {:?} area: {:?}",
        cam.bool_property(HResult::S_OK, 1).unwrap(),
        cam.property(HResult::S_OK, 120u16).unwrap(),
        cam.property(HResult::S_OK, 10_000u32).unwrap(),
        cam.property(HResult::S_OK, 100u16).unwrap(),
        cam.property(HResult::S_OK, Rect { left: 0, top: 0, right: 64, bottom: 48 }).unwrap()
    );
    println!(
        "white balance temp/tint: {:?} area: {:?}",
        cam.white_balance_temp_tint(HResult::S_OK, 6503, 1000).unwrap(),
        cam.property(HResult::S_OK, Rect { left: 16, top: 12, right: 48, bottom: 36 }).unwrap()
    );
    println!(
        "hue: {:?} saturation: {:?} brightness: {:?} contrast: {:?} gamma: {:?}",
        cam.property(HResult::S_OK, 0i32).unwrap(),
        cam.property(HResult::S_OK, 128i32).unwrap(),
        cam.property(HResult::S_OK, 0i32).unwrap(),
        cam.property(HResult::S_OK, 0i32).unwrap(),
        cam.property(HResult::S_OK, 100i32).unwrap()
    );
    println!(
        "horizontal flip: {:?} vertical flip: {:?} negated: {:?}",
        cam.bool_property(HResult::S_OK, 0).unwrap(),
        cam.bool_property(HResult::S_OK, 0).unwrap(),
        cam.bool_property(HResult::S_OK, 0).unwrap()
    );
    println!(
        "level ranges: {:?}",
        cam.level_ranges(HResult::S_OK, [0, 0, 0, 0], [255, 255, 255, 255]).unwrap()
    );

    cam.start(HResult::S_OK).unwrap();
    assert!(cam.is_capturing());
    let index = cam.preview_size_index(HResult::S_OK, 0).unwrap();
    assert_eq!(cam.snap_index(index), 0);

    let posted = [1u32, 1, 1, 4, 4, 5, 4, 2, 4, 4];
    let mut live = 0;
    let mut stills = 0;
    for i in 0..10 {
        let event = Event::from_code(posted[i]).unwrap();
        println!("event: {:?}", event);
        match event {
            Event::Image => {
                let mut image = driver.pull(cam.pull_image(8));
                assert_eq!(image.data.len(), 64 * 48);
                image.data.truncate(100);
                println!("captured: {:?}", image);
                live += 1;
            }
            Event::StillImage => {
                let mut image = driver.pull(cam.pull_still_image(8));
                assert_eq!(image.data.len(), 64 * 48);
                image.data.truncate(100);
                println!("captured: {:?}", image);
                stills += 1;
            }
            _ => (),
        }
    }
    assert_eq!((live, stills), (5, 1));

    cam.stop(HResult::S_OK).unwrap();
    assert!(!cam.is_capturing());
    cam.start(HResult::S_OK).unwrap();
    cam.stop(HResult::S_OK).unwrap();
}
