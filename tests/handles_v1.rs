use gpio_cdev::abi_v1::{GpioHandleData, GpioLineChangedType, GPIOHANDLE_REQUEST_OUTPUT};
use gpio_cdev::error::{Error, IoctlKind};
use gpio_cdev::line_v1::{LineHandle, LineRequestBuilder, OffsetConfig};

fn cfg(offset: u32, default_value: Option<u8>) -> OffsetConfig {
    OffsetConfig { offset, default_value }
}

#[test]
fn v1_request_keeps_offsets_and_defaults() {
    let req = LineRequestBuilder::new()
        .set_consumer("v1")
        .set_flags(GPIOHANDLE_REQUEST_OUTPUT)
        .set_offsets(&[cfg(3, Some(1)), cfg(7, None), cfg(2, Some(0))])
        .build()
        .unwrap();
    assert_eq!(req.offsets(), &[3, 7, 2]);
    assert_eq!(req.default_values(), &[1, 0, 0]);
    assert_eq!(req.num_lines(), 3);
    assert_eq!(req.flags(), GPIOHANDLE_REQUEST_OUTPUT);
    assert_eq!(req.consumer(), "v1");
    assert_eq!(req.index_of_offset(2), Some(2));
    assert_eq!(req.default_value_of_offset(3), Some(1));
    assert_eq!(req.default_value_of_offset(7), Some(0));
    assert_eq!(req.default_value_of_offset(8), None);
}

#[test]
fn v1_request_drops_lines_past_64() {
    let configs: Vec<OffsetConfig> = (0..65).map(|o| cfg(o, None)).collect();
    let req = LineRequestBuilder::new().set_offsets(&configs).build().unwrap();
    assert_eq!(req.num_lines(), 64);
    assert!(!req.offsets().contains(&64));
}

#[test]
fn v1_set_values_marks_known_lines() {
    let req = LineRequestBuilder::new()
        .set_offsets(&[cfg(3, None), cfg(7, None), cfg(2, None)])
        .build()
        .unwrap();
    let handle: LineHandle = req.granted(Ok(0)).unwrap();
    assert_eq!(handle.offsets(), &[3, 7, 2]);
    let data = handle.set_values_query(&[2, 40]);
    assert_eq!(&data.values[..4], &[0, 0, 1, 0]);
    assert_eq!(LineHandle::value_of_index(&data, 2), Some(1));
    assert_eq!(LineHandle::value_of_index(&data, 64), None);
    assert_eq!(
        req.granted(Err(1)).unwrap_err(),
        Error::Ioctl { kind: IoctlKind::GetLine, errno: 1 }
    );
    assert_eq!(GpioHandleData::zeroed().values, [0u8; 64]);
}

#[test]
fn v1_set_values_ignores_unknown_offsets() {
    let req = LineRequestBuilder::new()
        .set_offsets(&[cfg(3, None), cfg(7, None), cfg(2, None)])
        .build()
        .unwrap();
    let handle = req.granted(Ok(0)).unwrap();
    let with = handle.set_values_query(&[7, 99]);
    let without = handle.set_values_query(&[7]);
    assert_eq!(with.values, without.values);
    assert_eq!(&with.values[..3], &[0, 1, 0]);
}

#[test]
fn v1_change_codes() {
    assert_eq!(GpioLineChangedType::from_u32(1), GpioLineChangedType::Requested);
    assert_eq!(GpioLineChangedType::from_u32(2), GpioLineChangedType::Released);
    assert_eq!(GpioLineChangedType::from_u32(3), GpioLineChangedType::Config);
    assert_eq!(GpioLineChangedType::from_u32(0), GpioLineChangedType::Config);
}
