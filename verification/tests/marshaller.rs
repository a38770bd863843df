use netservices::{Frame, Marshaller};

/// One-byte length prefix followed by the payload.
#[derive(Debug, PartialEq)]
struct Short(Vec<u8>);

impl Frame for Short {
    type Error = ();

    fn unmarshall(bytes: &[u8]) -> Result<Option<(Self, usize)>, ()> {
        match bytes.first() {
            None => Ok(None),
            Some(&len) if bytes.len() < 1 + len as usize => Ok(None),
            Some(&len) => Ok(Some((Short(bytes[1..1 + len as usize].to_vec()), 1 + len as usize))),
        }
    }

    fn marshall(&self) -> Result<Vec<u8>, ()> {
        if self.0.len() > 255 {
            return Err(());
        }
        let mut v = vec![self.0.len() as u8];
        v.extend_from_slice(&self.0);
        Ok(v)
    }
}

#[test]
fn pushed_frames_are_read_out_in_order() {
    let mut m = Marshaller::new();
    m.push(Short(b"ab".to_vec()));
    m.push(Short(b"c".to_vec()));
    assert_eq!(m.write_queue_len(), 5);
    assert_eq!(m.read(3), vec![2, b'a', b'b']);
    assert_eq!(m.read(10), vec![1, b'c']);
    assert_eq!(m.write_queue_len(), 0);
}

#[test]
fn pop_waits_for_a_whole_frame() {
    let mut m = Marshaller::with_capacity(16);
    assert_eq!(m.write(&[3, b'x']), 2);
    assert_eq!(m.pop::<Short>(), Ok(None));
    assert_eq!(m.read_queue_len(), 2);
    m.write(&[b'y', b'z', 0]);
    assert_eq!(m.pop::<Short>(), Ok(Some(Short(b"xyz".to_vec()))));
    assert_eq!(m.read_queue_len(), 1);
    assert_eq!(m.pop::<Short>(), Ok(Some(Short(vec![]))));
    assert_eq!(m.pop::<Short>(), Ok(None));
}

#[test]
fn drain_returns_unread_bytes_only_when_nothing_waits_for_sending() {
    let mut m = Marshaller::new();
    m.write(&[9, 8]);
    let m = m.drain().unwrap_or_else(|_| panic!("write queue is empty"));
    assert_eq!(m, vec![9, 8]);

    let mut m = Marshaller::new();
    m.write(&[1]);
    m.push(Short(vec![5]));
    let back = m.drain().expect_err("write queue holds a frame");
    assert_eq!(back.read_queue_len(), 1);
    assert_eq!(back.write_queue_len(), 2);
}
