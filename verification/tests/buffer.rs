use rustflow::buffer::StrBuffer;

#[test]
fn view_buffer_presents_the_borrowed_bytes() {
    let data = String::from("serialized graph bytes");
    let buffer = StrBuffer::new(&data);
    assert_eq!(buffer.as_str(), "serialized graph bytes");
}

#[test]
fn copying_buffer_outlives_its_source() {
    let buffer = {
        let data = String::from("short-lived");
        StrBuffer::new_internal(&data)
    };
    assert_eq!(buffer.as_str(), "short-lived");
}

#[test]
fn empty_buffer_stays_empty() {
    let buffer = StrBuffer::new("");
    assert_eq!(buffer.as_str(), "");
}
