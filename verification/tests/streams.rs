use netservices::bytes::{copy_from, push_u16_le, push_u64_le, read_u16_le, read_u64_le};
use netservices::channel::ChannelStream;
use netservices::netio::{IoError, IoErrorKind};
use netservices::noise::NoiseArtifact;
use netservices::resource::Interest;
use netservices::streampipes::transcode::{Decode, DumbDecoder, DumbEncoder, Encode, TranscodedStream};
use netservices::transcode::{encrypt_iter, Decrypt, Encrypt, EncryptedStream};
use netservices::tunnel::{TunnelRelay, TunnelSide, TunnelStep};
use netservices::Direction;

#[test]
fn direction_predicates() {
    assert!(Direction::Inbound.is_inbound());
    assert!(!Direction::Inbound.is_outbound());
    assert!(Direction::Outbound.is_outbound());
    assert!(!Direction::Outbound.is_inbound());
}

#[test]
fn little_endian_integers() {
    let mut out = vec![0xFF];
    push_u64_le(&mut out, 0x0102_0304_0506_0708);
    push_u16_le(&mut out, 0xA1B2);
    assert_eq!(out, vec![0xFF, 8, 7, 6, 5, 4, 3, 2, 1, 0xB2, 0xA1]);
    assert_eq!(read_u64_le(&out, 1), 0x0102_0304_0506_0708);
    assert_eq!(read_u16_le(&out, 9), 0xA1B2);
    assert_eq!(copy_from(&out, 9), vec![0xB2, 0xA1]);
}

#[test]
fn transient_error_kinds() {
    assert!(IoErrorKind::WouldBlock.is_transient());
    assert!(IoErrorKind::Interrupted.is_transient());
    assert!(IoErrorKind::WriteZero.is_transient());
    assert!(IoErrorKind::OutOfMemory.is_transient());
    assert!(!IoErrorKind::ConnectionReset.is_transient());
    assert!(!IoErrorKind::UnexpectedEof.is_transient());
    assert_eq!(IoError::from_kind(IoErrorKind::TimedOut).kind(), IoErrorKind::TimedOut);
}

#[test]
fn channel_reads_what_was_written() {
    let mut channel = ChannelStream::new();
    assert_eq!(channel.write(&[1, 2, 3]).unwrap(), 3);
    assert_eq!(channel.write(&[4]).unwrap(), 1);
    assert!(channel.flush().is_ok());
    assert_eq!(channel.read(2).unwrap(), vec![1, 2]);
    assert_eq!(channel.read(5).unwrap_err().kind(), IoErrorKind::UnexpectedEof);
    assert_eq!(channel.read(2).unwrap(), vec![3, 4]);
    assert_eq!(channel.read(0).unwrap(), Vec::<u8>::new());
}

#[test]
fn dumb_transcoded_stream_passes_bytes() {
    let mut stream =
        TranscodedStream::with(ChannelStream::new(), ChannelStream::new(), DumbDecoder, DumbEncoder);
    assert_eq!(stream.push_bytes(&[9, 8, 7]).unwrap(), 3);
    assert_eq!(stream.read(2).unwrap(), vec![9, 8]);
    assert_eq!(stream.read(2).unwrap_err().kind(), IoErrorKind::UnexpectedEof);
    assert_eq!(stream.read(1).unwrap(), vec![7]);
    assert_eq!(stream.write(&[1, 2]).unwrap(), 2);
    assert!(stream.flush().is_ok());
}

/// Adds a running key to each byte.
struct Rolling(u8);

impl Encode for Rolling {
    fn encrypt_byte(&mut self, byte: u8) -> u8 {
        let out = byte.wrapping_add(self.0);
        self.0 = self.0.wrapping_add(1);
        out
    }
}

impl Encrypt for Rolling {
    fn encrypt_byte(&mut self, byte: u8) -> u8 {
        let out = byte.wrapping_add(self.0);
        self.0 = self.0.wrapping_add(1);
        out
    }
}

/// Subtracts a running key from each byte.
struct Unrolling(u8);

impl Decode for Unrolling {
    fn decrypt(&mut self, buf: &mut Vec<u8>) -> Result<usize, IoError> {
        for byte in buf.iter_mut() {
            *byte = byte.wrapping_sub(self.0);
            self.0 = self.0.wrapping_add(1);
        }
        Ok(buf.len())
    }
}

impl Decrypt for Unrolling {
    fn decrypt(&mut self, buf: &mut Vec<u8>) -> Result<usize, IoError> {
        for byte in buf.iter_mut() {
            *byte = byte.wrapping_sub(self.0);
            self.0 = self.0.wrapping_add(1);
        }
        Ok(buf.len())
    }
}

#[test]
fn encrypt_iter_encrypts_each_byte_in_order() {
    let mut key = Rolling(10);
    assert_eq!(encrypt_iter(&mut key, &[0, 0, 250]), vec![10, 11, 6]);
    assert_eq!(key.0, 13);
}

#[test]
fn encrypted_stream_roundtrip() {
    let mut sender =
        EncryptedStream::with(ChannelStream::new(), ChannelStream::new(), Unrolling(0), Rolling(5));
    assert_eq!(sender.write(&[1, 2, 3]).unwrap(), 3);
    let mut receiver =
        EncryptedStream::with(ChannelStream::new(), ChannelStream::new(), Unrolling(5), Rolling(0));
    assert_eq!(receiver.push_bytes(&[6, 8, 10]).unwrap(), 3);
    assert_eq!(receiver.read(3).unwrap(), vec![1, 2, 3]);
    assert_eq!(receiver.read(1).unwrap_err().kind(), IoErrorKind::UnexpectedEof);
}

#[test]
fn transcoded_stream_encodes_writes() {
    let mut stream =
        TranscodedStream::with(ChannelStream::new(), ChannelStream::new(), Unrolling(1), Rolling(1));
    assert_eq!(stream.write(&[0, 0]).unwrap(), 2);
    assert_eq!(stream.push_bytes(&[1, 2]).unwrap(), 2);
    assert_eq!(stream.read(2).unwrap(), vec![0, 0]);
}

#[test]
fn tunnel_relays_in_order() {
    let mut tunnel = TunnelRelay::new();
    match tunnel.on_remote_read(Ok(vec![1, 2, 3])) {
        TunnelStep::Continue(Some((side, interest))) => {
            assert_eq!(side, TunnelSide::Local);
            assert_eq!(interest, Interest::read_write());
        }
        _ => panic!("expected to wait for the local end"),
    }
    assert_eq!(tunnel.pending_local(), vec![1, 2, 3]);
    match tunnel.on_local_written(Ok(2)) {
        TunnelStep::Continue(None) => {}
        _ => panic!("bytes remain to be written"),
    }
    assert_eq!(tunnel.pending_local(), vec![3]);
    match tunnel.on_local_written(Ok(1)) {
        TunnelStep::Continue(Some((side, interest))) => {
            assert_eq!(side, TunnelSide::Local);
            assert_eq!(interest, Interest::read_only());
        }
        _ => panic!("expected the local end to be read again"),
    }
    match tunnel.on_local_read(Ok(vec![7])) {
        TunnelStep::Continue(Some((side, _))) => assert_eq!(side, TunnelSide::Remote),
        _ => panic!("expected to wait for the remote end"),
    }
    assert_eq!(tunnel.pending_remote(), vec![7]);
    let _ = tunnel.on_remote_written(Ok(1));
    assert_eq!(tunnel.counts(), (3, 1));
    match tunnel.on_local_read(Ok(vec![])) {
        TunnelStep::Done(inbound, outbound) => assert_eq!((inbound, outbound), (3, 1)),
        _ => panic!("a closed end stops the tunnel"),
    }
}

#[test]
fn tunnel_failure_stops() {
    let mut tunnel = TunnelRelay::new();
    match tunnel.on_remote_read(Err(IoError::from_kind(IoErrorKind::ConnectionReset))) {
        TunnelStep::Failed(e) => assert_eq!(e.kind(), IoErrorKind::ConnectionReset),
        _ => panic!("a failure stops the tunnel"),
    }
    match tunnel.on_local_written(Ok(0)) {
        TunnelStep::Done(inbound, outbound) => assert_eq!((inbound, outbound), (0, 0)),
        _ => panic!("a zero write stops the tunnel"),
    }
}

#[test]
fn encoder_iter_encodes_each_byte_in_order() {
    let mut key = Rolling(1);
    let encoded = netservices::streampipes::transcode::encrypt_iter(&mut key, &[5, 5, 5, 5]);
    assert_eq!(encoded, vec![6, 7, 8, 9]);
    assert_eq!(key.0, 5);
    let mut dumb = DumbEncoder;
    assert_eq!(netservices::streampipes::transcode::encrypt_iter(&mut dumb, &[1, 2]), vec![1, 2]);
}

#[test]
fn noise_artifact_bytes() {
    let full = NoiseArtifact::with(vec![1, 2], Some(vec![3]));
    assert_eq!(full.to_vec(), vec![1, 2, 3]);
    let partial = NoiseArtifact::with(vec![4], None);
    assert_eq!(partial.to_vec(), vec![4]);
}
