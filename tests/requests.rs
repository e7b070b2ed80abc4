use gpio_cdev::abi_v2::{GpioV2LineAttribute, GpioV2LineValues};
use gpio_cdev::error::{Error, IoctlKind};
use gpio_cdev::line::{
    LineAttribute, LineFlags, LineRequest, LineRequestBuilder, LineValueItem, OffsetAttribute,
    OffsetConfig, OffsetRequest, GPIO_V2_LINE_FLAG_ACTIVE_LOW, GPIO_V2_LINE_FLAG_INPUT,
    GPIO_V2_LINE_FLAG_OUTPUT,
};

fn plain(offsets: &[u32]) -> Vec<OffsetConfig> {
    offsets.iter().map(|&o| OffsetConfig::from_offset(o)).collect()
}

fn request_of(offsets: &[u32]) -> LineRequest {
    LineRequest::builder()
        .set_consumer("tester")
        .set_flags(LineFlags::from_bits_retain(GPIO_V2_LINE_FLAG_INPUT))
        .set_offsets(&plain(offsets))
        .build()
        .unwrap()
}

#[test]
fn values_come_back_in_request_order() {
    let req = request_of(&[3, 7, 2]);
    let handle = req.granted(Ok(0)).unwrap();
    assert_eq!(handle.offsets(), &[3, 7, 2]);
    let query = handle.get_values_query();
    assert_eq!(query.mask, 0b111);
    let values = handle.decode_values(query, 0b101);
    let items = values.values();
    let offsets: Vec<u32> = items.iter().map(|i| i.offset).collect();
    assert_eq!(offsets, vec![3, 7, 2]);
    assert!(items.iter().all(|i| i.value <= 1));
    assert_eq!(items[0].value, 1);
    assert_eq!(items[1].value, 0);
    assert_eq!(items[2].value, 1);
    assert_eq!(values.value_of_offset(2), Some(1));
    assert_eq!(values.value_of_offset(9), None);
}

#[test]
fn iterator_skips_lines_outside_mask() {
    let req = request_of(&[3, 7, 2]);
    let handle = req.granted(Ok(0)).unwrap();
    let values = handle.decode_values(GpioV2LineValues { bits: 0, mask: 0b100 }, u64::MAX);
    let mut it = values.values_iter();
    assert_eq!(it.next(), Some(LineValueItem { offset: 2, value: 1 }));
    assert_eq!(it.next(), None);
    assert_eq!(it.next(), None);
    assert_eq!(values.value_of_index(0), None);
    assert_eq!(values.value_of_index(64), None);
}

#[test]
fn request_keeps_only_first_64_offsets() {
    let offsets: Vec<u32> = (100..170).collect();
    let req = request_of(&offsets);
    assert_eq!(req.num_lines(), 64);
    assert_eq!(req.record().config.num_attrs, 0);
    assert_eq!(req.offsets(), &offsets[..64]);
    let handle = req.granted(Ok(0)).unwrap();
    assert_eq!(handle.offsets().len(), 64);
    assert!(!handle.offsets().contains(&164));
}

#[test]
fn set_values_ignores_unknown_offsets() {
    let handle = request_of(&[3, 7, 2]).granted(Ok(0)).unwrap();
    let with = handle.set_values_query(&[
        LineValueItem { offset: 7, value: 1 },
        LineValueItem { offset: 99, value: 1 },
    ]);
    let without = handle.set_values_query(&[LineValueItem { offset: 7, value: 1 }]);
    assert_eq!(with.mask, 0b010);
    assert_eq!(with.bits, 0b010);
    assert_eq!(with.mask, without.mask);
    assert_eq!(with.bits, without.bits);
}

#[test]
fn set_values_marks_inactive_lines_in_mask_only() {
    let handle = request_of(&[3, 7, 2]).granted(Ok(0)).unwrap();
    let q = handle.set_values_query(&[
        LineValueItem::from_bool(3, false),
        LineValueItem { offset: 2, value: 5 },
    ]);
    assert_eq!(q.mask, 0b101);
    assert_eq!(q.bits, 0b100);
}

#[test]
fn values_by_offsets_builds_mask() {
    let handle = request_of(&[3, 7, 2]).granted(Ok(0)).unwrap();
    let q = handle.get_values_by_offsets_query(&[2, 3, 40]);
    assert_eq!(q.mask, 0b101);
    assert_eq!(q.bits, 0);
}

#[test]
fn refused_request_gives_no_handle() {
    let req = request_of(&[1]);
    assert_eq!(req.granted(Err(16)).unwrap_err(), Error::Ioctl { kind: IoctlKind::GetLine, errno: 16 });
}

#[test]
fn attributes_are_packed_per_line() {
    let configs = vec![
        OffsetConfig::new(4, vec![OffsetAttribute::from_bool(true)]),
        OffsetConfig::from_offset(5),
        OffsetConfig::new(
            6,
            vec![
                OffsetAttribute::Flags(LineFlags::from_bits_retain(GPIO_V2_LINE_FLAG_OUTPUT)),
                OffsetAttribute::DebouncePeriodUs(1500),
            ],
        ),
    ];
    let req = LineRequestBuilder::new()
        .set_flags(LineFlags::from_bits_retain(GPIO_V2_LINE_FLAG_INPUT))
        .set_offsets(&configs)
        .build()
        .unwrap();
    let rec = req.record();
    assert_eq!(rec.num_lines, 3);
    assert_eq!(rec.config.num_attrs, 3);
    assert_eq!(rec.config.attrs[0].mask, 0b001);
    assert_eq!(rec.config.attrs[0].attr.id, 2);
    assert_eq!(rec.config.attrs[0].attr.value, 0b001);
    assert_eq!(rec.config.attrs[1].mask, 0b100);
    assert_eq!(rec.config.attrs[1].attr.id, 1);
    assert_eq!(rec.config.attrs[2].mask, 0b100);
    assert_eq!(rec.config.attrs[2].attr.id, 3);
    assert_eq!(rec.config.attrs[2].attr.value, 1500);
    assert_eq!(req.flags_of_offset(6), Some(LineFlags::from_bits_retain(GPIO_V2_LINE_FLAG_OUTPUT)));
    assert_eq!(req.flags_of_offset(5), Some(LineFlags::from_bits_retain(GPIO_V2_LINE_FLAG_INPUT)));
    assert_eq!(req.flags_of_offset(8), None);
    assert_eq!(req.default_value_of_offset(4), Some(1));
    assert_eq!(req.default_value_of_offset(5), None);
    assert_eq!(req.default_value_of_offset(8), None);
    assert_eq!(req.index_of_offset(6), Some(2));
}

#[test]
fn output_value_attribute_uses_line_bit() {
    let a = OffsetAttribute::Value(1).into_line_attribute(5);
    assert_eq!(a.id, 2);
    assert_eq!(a.value, 1 << 5);
    assert_eq!(OffsetAttribute::Value(0).into_line_attribute(5).value, 0);
}

#[test]
fn attribute_slots_stop_at_ten() {
    let configs: Vec<OffsetConfig> = (0..8)
        .map(|o| OffsetConfig::new(o, vec![OffsetAttribute::Value(1), OffsetAttribute::DebouncePeriodUs(10)]))
        .collect();
    let req = LineRequestBuilder::new().set_offsets(&configs).build().unwrap();
    assert_eq!(req.record().config.num_attrs, 10);
    assert_eq!(req.offsets(), &[0, 1, 2, 3, 4]);
    assert_eq!(req.default_value_of_offset(4), Some(1));
    assert_eq!(req.default_value_of_offset(5), None);
}

#[test]
fn lines_after_slots_fill_are_dropped() {
    let configs = vec![
        OffsetConfig::new(4, vec![OffsetAttribute::Value(1); 10]),
        OffsetConfig::from_offset(5),
    ];
    let req = LineRequestBuilder::new().set_offsets(&configs).build().unwrap();
    assert_eq!(req.num_lines(), 1);
    assert_eq!(req.offsets(), &[4]);
    assert_eq!(req.record().config.num_attrs, 10);
    assert!(req.record().config.attrs.iter().all(|a| a.mask == 1));
}

#[test]
fn fresh_request_has_empty_consumer() {
    let req = LineRequest::builder().build().unwrap();
    assert_eq!(req.consumer(), "");
    assert_eq!(req.num_lines(), 0);
    assert_eq!(req.flags().bits(), 0);
    assert_eq!(req.record().padding, [0; 5]);
    assert_eq!(req.record().config.padding, [0; 5]);
}

#[test]
fn builder_sets_label_and_buffer_size() {
    let req = LineRequestBuilder::new()
        .set_consumer("a-much-too-long-consumer-label-for-the-kernel")
        .set_event_buffer_size(32)
        .build()
        .unwrap();
    assert_eq!(req.consumer(), "a-much-too-long-consumer-label-");
    assert_eq!(req.record().event_buffer_size, 32);
    assert_eq!(req.num_lines(), 0);
    assert_eq!(req.offsets(), &[] as &[u32]);
}

#[test]
fn attribute_records_decode_by_discriminant() {
    let rec = |id, value| GpioV2LineAttribute { id, padding: 0, value };
    assert_eq!(LineAttribute::from_record(&rec(1, 8)), LineAttribute::Flags(LineFlags::from_bits_retain(8)));
    assert_eq!(LineAttribute::from_record(&rec(2, 6)), LineAttribute::Values(6));
    assert_eq!(LineAttribute::from_record(&rec(3, (7 << 32) | 250)), LineAttribute::DebouncePeriodUs(250));
    assert_eq!(LineAttribute::from_record(&rec(9, 40)), LineAttribute::DebouncePeriodUs(40));
    assert_eq!(LineAttribute::default(), LineAttribute::Values(0));
}

#[test]
fn single_line_request() {
    let flags = LineFlags::from_bits_retain(GPIO_V2_LINE_FLAG_OUTPUT | GPIO_V2_LINE_FLAG_ACTIVE_LOW);
    let req = OffsetRequest::new(17, flags, 1, "led");
    assert_eq!(req.offset(), 17);
    assert_eq!(req.consumer(), "led");
    assert_eq!(req.flags(), flags);
    assert_eq!(req.default_value(), Some(1));
    assert_eq!(OffsetRequest::new(17, flags, 0, "led").default_value(), Some(0));
    assert_eq!(req.line_request().offsets(), &[17]);
}

#[test]
fn flags_set_operations() {
    let a = LineFlags::from_bits_retain(GPIO_V2_LINE_FLAG_INPUT);
    let b = LineFlags::from_bits_retain(GPIO_V2_LINE_FLAG_ACTIVE_LOW);
    let u = a.union(b);
    assert_eq!(u.bits(), 6);
    assert!(u.contains(a));
    assert!(!a.contains(b));
    assert_eq!(LineFlags::empty().bits(), 0);
}
