use gpio_cdev::abi_v2::{GpioV2LineChangedType, GpioV2LineInfo, GpioV2LineInfoChanged};
use gpio_cdev::chip::{lineinfo_from_outcome, unwatch_from_outcome, ChipInfo, GpioChipInfo};
use gpio_cdev::cstring::CString;
use gpio_cdev::error::{classify, Error, IoctlKind};
use gpio_cdev::event::{stream_item, LineInfoChangedEvent};

fn event(kind: u32) -> LineInfoChangedEvent {
    let mut info = GpioV2LineInfo::query(12);
    info.name = CString::new("pin12");
    LineInfoChangedEvent::from_record(GpioV2LineInfoChanged {
        info,
        timestamp_ns: 99,
        event_type: kind,
        padding: [0; 5],
    })
}

#[test]
fn event_fields_decode() {
    let e = event(2);
    assert_eq!(e.event_type(), GpioV2LineChangedType::Released);
    assert_eq!(event(1).event_type(), GpioV2LineChangedType::Requested);
    assert_eq!(event(3).event_type(), GpioV2LineChangedType::Config);
    assert_eq!(event(77).event_type(), GpioV2LineChangedType::Config);
    assert_eq!(e.timestamp_ns(), 99);
    assert_eq!(e.lineinfo().offset(), 12);
    assert_eq!(e.lineinfo().name(), "pin12");
}

#[test]
fn line_info_query_is_zero_but_offset() {
    let q = GpioV2LineInfo::query(21);
    assert_eq!(q.offset, 21);
    assert_eq!(q.padding, [0; 4]);
    assert!(q.attrs.iter().all(|a| a.id == 0 && a.padding == 0 && a.value == 0));
}

#[test]
fn read_counts_whole_records() {
    assert_eq!(LineInfoChangedEvent::records_read(576, 0), Ok(2));
    assert_eq!(LineInfoChangedEvent::records_read(0, 0), Ok(0));
    assert_eq!(
        LineInfoChangedEvent::records_read(-1, 4),
        Err(Error::Ioctl { kind: IoctlKind::GetLineEvent, errno: 4 })
    );
}

#[test]
fn stream_yields_error_once_and_goes_on() {
    let err = Error::Ioctl { kind: IoctlKind::GetLineEvent, errno: 5 };
    let first = stream_item(Err(err), LineInfoChangedEvent::zeroed());
    assert!(matches!(first, Some(Err(e)) if e == err));
    let second = stream_item(Ok(1), event(1));
    assert!(matches!(second, Some(Ok(ref e)) if e.timestamp_ns() == 99));
}

#[test]
fn unwatching_unwatched_line_is_an_error() {
    assert_eq!(
        unwatch_from_outcome(6, Err(16)),
        Err(Error::Ioctl { kind: IoctlKind::GetLineInfo, errno: 16 })
    );
    assert_eq!(unwatch_from_outcome(6, Ok(0)), Ok(6));
}

#[test]
fn chip_info_decodes() {
    let rec = GpioChipInfo { name: CString::new("gpiochip0"), label: CString::new("pinctrl"), lines: 54 };
    let info = ChipInfo::from_outcome(rec, Ok(0)).unwrap();
    assert_eq!(info.name(), "gpiochip0");
    assert_eq!(info.label(), "pinctrl");
    assert_eq!(info.lines(), 54);
    assert_eq!(
        ChipInfo::from_outcome(GpioChipInfo::zeroed(), Err(25)).unwrap_err(),
        Error::Ioctl { kind: IoctlKind::GetChipInfo, errno: 25 }
    );
}

#[test]
fn line_info_outcome() {
    let mut rec = GpioV2LineInfo::query(3);
    rec.consumer = CString::new("me");
    rec.num_attrs = 1;
    rec.attrs[0].id = 3;
    rec.attrs[0].value = 20;
    let info = lineinfo_from_outcome(rec, Ok(0)).unwrap();
    assert_eq!(info.offset(), 3);
    assert_eq!(info.consumer(), "me");
    assert_eq!(info.num_attrs(), 1);
    assert_eq!(info.attrs(), vec![gpio_cdev::line::LineAttribute::DebouncePeriodUs(20)]);
    assert_eq!(
        lineinfo_from_outcome(rec, Err(22)).unwrap_err(),
        Error::Ioctl { kind: IoctlKind::GetLineInfo, errno: 22 }
    );
}

#[test]
fn classify_keeps_return_code() {
    assert_eq!(classify(IoctlKind::SetValues, Ok::<i32, i32>(3)), Ok(3));
    assert_eq!(
        classify(IoctlKind::SetValues, Err::<i32, i32>(1)),
        Err(Error::Ioctl { kind: IoctlKind::SetValues, errno: 1 })
    );
}
