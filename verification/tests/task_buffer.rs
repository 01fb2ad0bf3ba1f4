use crayon::task_buffer::TaskBuffer;

#[derive(Debug, Default, Copy, Clone, PartialEq, Eq)]
struct UpdateViewRect {
    position: (u16, u16),
    size: (u16, u16),
}

impl UpdateViewRect {
    fn fields(&self) -> ((u16, u16), (u16, u16)) {
        (self.position, self.size)
    }
}

#[test]
fn buf() {
    let mut buffer = TaskBuffer::with_capacity(128);

    let mut uvp = UpdateViewRect::default();
    uvp.position = (256, 128);
    let slice_uvp = buffer.extend(&uvp.fields());

    let int = 128 as u32;
    let slice_int = buffer.extend(&int);

    assert_eq!(buffer.as_ref(slice_int), int);
    assert_eq!(buffer.as_ref(slice_uvp), uvp.fields());

    let arr = [1, 2, 3];
    let slice_arr = buffer.extend(&arr);
    assert_eq!(buffer.as_ref(slice_arr), arr);

    let slice_arr_1_2 = buffer.extend_from_slice(&arr[0..2]);
    assert_eq!(buffer.as_slice(slice_arr_1_2), &arr[0..2]);

    let text = "string serialization";
    let slice_text = buffer.extend_from_str(text);
    assert_eq!(text, buffer.as_str(slice_text));
}

#[test]
fn values_encode_little_endian() {
    let mut buffer = TaskBuffer::with_capacity(16);
    let p = buffer.extend(&0x0102_0304u32);
    assert_eq!(buffer.as_bytes(p), &[4u8, 3, 2, 1]);
    let q = buffer.extend(&-2i16);
    assert_eq!(buffer.as_bytes(q), &[0xfeu8, 0xff]);
    assert_eq!(buffer.as_ref(q), -2i16);
}

#[test]
fn earlier_values_survive_later_appends() {
    let mut buffer = TaskBuffer::with_capacity(0);
    let a = buffer.extend(&7u64);
    let b = buffer.extend(&Some(9u16));
    let c = buffer.extend(&Option::<u16>::None);
    let d = buffer.extend(&(true, -5i64));
    let name = buffer.extend_from_str("héllo");
    let many = buffer.extend_from_slice(&[10u32, 20, 30, 40]);
    assert_eq!(buffer.as_ref(a), 7u64);
    assert_eq!(buffer.as_ref(b), Some(9u16));
    assert_eq!(buffer.as_ref(c), None);
    assert_eq!(buffer.as_ref(d), (true, -5i64));
    assert_eq!(buffer.as_str(name), "héllo");
    assert_eq!(buffer.as_slice(many), vec![10u32, 20, 30, 40]);
}

#[test]
fn pointers_record_position_and_size() {
    let mut buffer = TaskBuffer::with_capacity(0);
    let a = buffer.extend(&1u8);
    let b = buffer.extend(&[1u16, 2, 3]);
    let c = buffer.extend_from_str("abc");
    assert_eq!(buffer.as_bytes(a), &[1u8]);
    assert_eq!(buffer.as_bytes(b), &[1u8, 0, 2, 0, 3, 0]);
    assert_eq!(buffer.as_bytes(c), b"abc");
    let copy = b;
    assert_eq!(buffer.as_ref(copy), [1u16, 2, 3]);
}

#[test]
fn empty_slice_and_string() {
    let mut buffer = TaskBuffer::with_capacity(4);
    let s = buffer.extend_from_slice::<u32>(&[]);
    let t = buffer.extend_from_str("");
    assert_eq!(buffer.as_slice(s), Vec::<u32>::new());
    assert_eq!(buffer.as_str(t), "");
    assert_eq!(buffer.as_bytes(t).len(), 0);
}

#[test]
fn clear_empties_the_buffer() {
    let mut buffer = TaskBuffer::with_capacity(4);
    let a = buffer.extend(&5u32);
    buffer.clear();
    let b = buffer.extend(&6u32);
    assert_eq!(buffer.as_bytes(b), &[6u8, 0, 0, 0]);
    assert_eq!(buffer.as_ref(a), 6u32);
}

#[test]
fn pointers_are_values_too() {
    let mut buffer = TaskBuffer::with_capacity(0);
    let name = buffer.extend_from_str("color");
    let entries = buffer.extend_from_slice(&[(name, 3u32)]);
    let read = buffer.as_slice(entries);
    assert_eq!(read.len(), 1);
    assert_eq!(buffer.as_str(read[0].0), "color");
    assert_eq!(read[0].1, 3u32);
}
