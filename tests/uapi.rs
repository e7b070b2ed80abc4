use gpio_cdev::abi_v2::{GpioV2LineAttribute, GpioV2LineInfo};
use gpio_cdev::line::LineFlags;
use gpio_cdev::uapi::{LineAttributeValue, LineHandle, LineInfo, LineRequestBuilder};

#[test]
fn uapi_builder_fills_record() {
    let req = LineRequestBuilder::new(&[4, 9], LineFlags::from_bits_retain(8), "uapi").build().unwrap();
    assert_eq!(req.num_lines(), 2);
    assert_eq!(req.offsets(), &[4, 9]);
    assert_eq!(req.consumer(), "uapi");
    assert_eq!(req.event_buffer_size(), 0);
    assert_eq!(req.fd(), 0);
    assert_eq!(req.config().flags().bits(), 8);
    assert_eq!(req.config().num_attrs(), 0);
    assert!(req.config().attrs().is_empty());
}

#[test]
fn uapi_builder_truncates_offsets() {
    let offsets: Vec<u32> = (0..80).collect();
    let req = LineRequestBuilder::new(&offsets, LineFlags::empty(), "x").build().unwrap();
    assert_eq!(req.num_lines(), 64);
    assert_eq!(req.offsets(), &offsets[..64]);
    let empty = LineRequestBuilder::new(&[], LineFlags::empty(), "x").build().unwrap();
    assert_eq!(empty.num_lines(), 0);
}

#[test]
fn uapi_handle_masks() {
    let mut req = LineRequestBuilder::new(&[10, 20, 30], LineFlags::empty(), "x").build().unwrap();
    req.set_fd(7);
    assert_eq!(req.fd(), 7);
    let h = LineHandle::from_request(&req);
    assert_eq!(h.mask(), 0b111);
    assert_eq!(h.get_bites_query().mask, 0b111);
    let s = h.set_bites_query(0b010);
    assert_eq!((s.mask, s.bits), (0b111, 0b010));
    let sub = h.set_bites_with_submask_query(0b1100);
    assert_eq!((sub.mask, sub.bits), (0b100, 0));
}

#[test]
fn uapi_attribute_values() {
    let mut rec = GpioV2LineInfo::query(8);
    rec.num_attrs = 3;
    rec.attrs[0] = GpioV2LineAttribute { id: 1, padding: 0, value: 12 };
    rec.attrs[1] = GpioV2LineAttribute { id: 2, padding: 0, value: 5 };
    rec.attrs[2] = GpioV2LineAttribute { id: 3, padding: 0, value: 700 };
    let info = LineInfo::from_record(rec);
    assert_eq!(info.offset(), 8);
    assert_eq!(info.num_attrs(), 3);
    assert_eq!(info.flags(), 0);
    assert_eq!(info.name(), "");
    let values: Vec<LineAttributeValue> = info.attrs().iter().map(|a| a.get_value()).collect();
    assert_eq!(
        values,
        vec![
            LineAttributeValue::Flags(12),
            LineAttributeValue::Values(5),
            LineAttributeValue::DebouncePeriodUs(700),
        ]
    );
    rec.num_attrs = 11;
    assert!(LineInfo::from_record(rec).attrs().is_empty());
}
