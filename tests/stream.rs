use grainfather::{
    decode_chunk, GrainfatherNotification, GrainfatherNotificationConvertError, NotificationFeed,
    ReassemblyBuffer, Temperature, Units, Voltage, NOTIFICATION_LEN,
};

fn padded(text: &str) -> Vec<u8> {
    let mut v = text.as_bytes().to_vec();
    while v.len() < NOTIFICATION_LEN {
        v.push(b' ');
    }
    v
}

fn stream() -> Vec<u8> {
    let mut s = padded("X65.0,64.3");
    s.extend(padded("V1,1"));
    s.extend(padded("I3"));
    s.extend(b"Qab".iter());
    s
}

fn feed(sizes: &[usize]) -> (Vec<Vec<u8>>, usize) {
    let s = stream();
    let mut buffer = ReassemblyBuffer::new();
    let mut out = Vec::new();
    let mut at = 0;
    let mut k = 0;
    while at < s.len() {
        let n = if k < sizes.len() { sizes[k] } else { s.len() - at };
        let end = std::cmp::min(at + n, s.len());
        out.extend(buffer.push(&s[at..end]));
        assert!(buffer.tail_len() < NOTIFICATION_LEN);
        at = end;
        k += 1;
    }
    (out, buffer.tail_len())
}

#[test]
fn chunking_does_not_change_records() {
    let whole = feed(&[]);
    assert_eq!(whole.0.len(), 3);
    assert_eq!(whole.0[0], padded("X65.0,64.3"));
    assert_eq!(whole.0[1], padded("V1,1"));
    assert_eq!(whole.0[2], padded("I3"));
    assert_eq!(whole.1, 3);
    let ones = vec![1usize; stream().len()];
    assert_eq!(feed(&ones), whole);
    assert_eq!(feed(&[17, 17]), whole);
    assert_eq!(feed(&[34]), whole);
    assert_eq!(feed(&[5, 30, 2, 9]), whole);
}

#[test]
fn tail_stays_shorter_than_a_record() {
    let mut buffer = ReassemblyBuffer::new();
    assert_eq!(buffer.tail_len(), 0);
    assert!(buffer.push(&[b'a'; 16]).is_empty());
    assert_eq!(buffer.tail_len(), 16);
    let r = buffer.push(&[b'b'; 1]);
    assert_eq!(r.len(), 1);
    assert_eq!(buffer.tail_len(), 0);
    let r = buffer.push(&[b'c'; 50]);
    assert_eq!(r.len(), 2);
    assert_eq!(buffer.tail_len(), 16);
    assert!(buffer.push(&[]).is_empty());
    assert_eq!(buffer.tail_len(), 16);
}

#[test]
fn malformed_record_does_not_affect_the_next() {
    let mut chunk = padded("Xab,64.3");
    chunk.extend(padded("X65.0,64.3"));
    let mut buffer = ReassemblyBuffer::new();
    let r = decode_chunk(&mut buffer, &chunk[..20]);
    assert_eq!(r, vec![Err(GrainfatherNotificationConvertError::MalformedField)]);
    let r = decode_chunk(&mut buffer, &chunk[20..]);
    assert_eq!(
        r,
        vec![Ok(GrainfatherNotification::Temp {
            desired: Temperature { tenths: 650 },
            current: Temperature { tenths: 643 },
        })]
    );
    assert_eq!(buffer.tail_len(), 0);
}

fn feed_voltage_records(sizes: &[usize]) -> (Vec<GrainfatherNotification>, usize) {
    let mut s = padded("V1,1");
    s.extend(padded("V0,0"));
    let mut feed = NotificationFeed::new();
    let mut out = Vec::new();
    let mut at = 0;
    for n in sizes {
        for r in feed.receive(&s[at..at + n]) {
            out.push(r.unwrap());
        }
        assert!(feed.retained_len() < NOTIFICATION_LEN);
        at += n;
    }
    assert_eq!(at, s.len());
    (out, feed.retained_len())
}

#[test]
fn feed_decodes_the_same_for_every_chunking() {
    let expected = vec![
        GrainfatherNotification::VoltageAndUnits { voltage: Voltage::V110, units: Units::Celsius },
        GrainfatherNotification::VoltageAndUnits { voltage: Voltage::V230, units: Units::Fahrenheit },
    ];
    assert_eq!(feed_voltage_records(&[1usize; 34]), (expected.clone(), 0));
    assert_eq!(feed_voltage_records(&[17, 17]), (expected.clone(), 0));
    assert_eq!(feed_voltage_records(&[34]), (expected.clone(), 0));
    assert_eq!(feed_voltage_records(&[3, 20, 11]), (expected, 0));
}

#[test]
fn feed_reports_a_bad_record_and_goes_on() {
    let mut s = padded("Xab.c,64.3");
    s.extend(padded("I9"));
    s.extend(b"Y1,0".iter());
    let mut feed = NotificationFeed::new();
    let mut out = feed.receive(&s[..10]);
    out.extend(feed.receive(&s[10..]));
    assert_eq!(
        out,
        vec![
            Err(GrainfatherNotificationConvertError::MalformedField),
            Ok(GrainfatherNotification::Interaction { interaction_code: 9 }),
        ]
    );
    assert_eq!(feed.retained_len(), 4);
}
