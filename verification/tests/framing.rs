use meowpad::device::Device;
use meowpad::error::Error;
use meowpad::meowboard::meowboard::Meowboard;
use meowpad::meowpad4k::meowpad::Meowpad;
use meowpad::meowpad4k::packet_id::PacketID;
use meowpad::packet::{Packet, PacketBuilder};
use meowpad::reassembler::{strip_selector, Reassembler};
use std::cell::RefCell;

/// A device that answers every read with the next frame of a packet,
/// without its report selector, and accepts every write.
struct Frames {
    builder: RefCell<PacketBuilder>,
    asked: RefCell<Vec<Vec<u8>>>,
}

impl Frames {
    fn of(packet: &Packet) -> Frames {
        Frames {
            builder: RefCell::new(packet.clone().build_packets()),
            asked: RefCell::new(Vec::new()),
        }
    }
}

// one frame of the builder without its report selector
fn read_packet(builder: &mut PacketBuilder, buf: &mut [u8]) -> usize {
    match builder.next() {
        Some(frame) => {
            buf.copy_from_slice(&strip_selector(&frame)[..buf.len()]);
            buf.len()
        }
        None => 0,
    }
}

impl Device for Frames {
    fn get_serial(&self) -> Result<String, Error> {
        Ok(String::new())
    }

    fn write(&self, data: &[u8]) -> Result<usize, Error> {
        self.asked.borrow_mut().push(data.to_vec());
        Ok(data.len())
    }

    fn read(&self, buf: &mut [u8]) -> Result<usize, Error> {
        Ok(read_packet(&mut self.builder.borrow_mut(), buf))
    }

    fn read_timeout(&self, buf: &mut [u8], _timeout: i32) -> Result<usize, Error> {
        Ok(read_packet(&mut self.builder.borrow_mut(), buf))
    }
}

fn sample_payload() -> Vec<u8> {
    vec![
        0x1D, 0x1B, 0x29, 0x3B, 0x35, 204, 255, 229, 255, 153, 204, 3, 255, 5, 120, 4, 8, 255, 0,
        5, 120, 204, 255, 229, 255, 153, 204, 2, 50, 12, 0x1D, 0x1B, 0x29, 0x3B, 0x35, 204, 255,
        229, 255, 153, 204, 3, 255, 5, 120, 4, 8, 255, 0, 5, 120, 204, 255, 229, 255, 153, 204, 2,
        50, 12, 0x1D, 0x1B, 0x29, 0x3B, 0x35, 204, 255, 229, 255, 153, 204, 3, 255, 5, 120, 4, 8,
        255, 0, 5, 120, 204, 255, 229, 255, 153, 204, 2, 0x35, 204, 255, 229, 255, 153, 204, 3,
        255, 5, 120, 4, 8, 255, 0, 5, 120, 204, 255, 229, 255, 153, 204, 2, 50, 12, 0x1D, 0x1B,
        0x29, 0x3B, 0x35, 204, 255, 229, 255, 153, 204, 3, 255, 5, 120, 4, 8, 255, 0, 5, 120, 204,
        255, 229, 255, 153, 204, 2, 0x35, 204, 255, 229, 255, 153, 204, 3, 255, 5, 120, 4, 8, 255,
        0, 5, 120, 204, 255, 229, 255, 153, 204, 2, 50, 12, 0x1D, 0x1B, 0x29, 0x3B, 0x35, 204,
        255, 229, 255, 153, 204, 3, 255, 5, 120, 4, 8, 255, 0, 5, 120, 204, 255, 229, 255, 153,
        204, 2, 50, 12,
    ]
}

#[test]
fn build_packet() {
    let packet = Packet::new(PacketID::GetConfig.into(), sample_payload());
    println!("{}", packet.to_string());
    let mut builder = packet.build_packets();
    while let Some(p) = builder.next() {
        println!("{:?}", p);
    }
}

#[test]
fn read_packets() {
    // build the packet
    let packet = Packet::new(PacketID::GetConfig.into(), sample_payload());
    // the dispatcher reads it back from its own frames
    let mut pad = Meowpad::new(Frames::of(&packet));
    let packet_recv = pad.read().unwrap();
    let packet_id = PacketID::from_u8(packet_recv.id).expect("解析数据包ID时报错");
    assert_eq!(packet_id, PacketID::GetConfig);
    println!("{}", packet_recv.to_string());
    println!("{:?}", packet_recv.data);
    assert!(packet_recv == packet)
}

#[test]
fn the_dispatchers_read_back_what_the_chunker_writes() {
    for len in [0usize, 1, 61, 62, 63, 64, 65, 124, 125, 130, 500, 16126] {
        let payload: Vec<u8> = (0..len).map(|i| (i * 11 % 256) as u8).collect();
        let packet = Packet::new(PacketID::GetKeyConfig.into(), payload);
        let device = Frames::of(&packet);
        let mut pad = Meowpad::new(device);
        assert_eq!(pad.read(), Ok(packet.clone()), "payload length {}", len);
        let mut board = Meowboard::new(Frames::of(&packet));
        assert_eq!(board.read(), Ok(packet), "payload length {}", len);
    }
}

#[test]
fn sixty_four_bytes_come_back_without_the_marker_among_them() {
    let packet = Packet::new(6, (0u8..64).collect());
    let frames = packet.to_frames();
    assert_eq!(frames.len(), 2);
    assert_eq!(&frames[1][..5], &[0u8, 0xFE, 61, 62, 63]);
    let mut pad = Meowpad::new(Frames::of(&packet));
    let back = pad.read().unwrap();
    assert_eq!(back.id, 6);
    assert_eq!(back.data, (0u8..64).collect::<Vec<u8>>());
    let mut board = Meowboard::new(Frames::of(&packet));
    assert_eq!(board.read(), Ok(packet));
}

#[test]
fn a_reply_beyond_the_request_index_is_refused() {
    // 16127 bytes need 256 later reports, and the index of a request is one byte
    let packet = Packet::new(1, vec![7u8; 16127]);
    let mut pad = Meowpad::new(Frames::of(&packet));
    assert_eq!(pad.read(), Err(Error::InvalidPacket));
}

#[test]
fn packet_text_names_identifier_and_length() {
    let packet = Packet::new(6, vec![1, 2, 3]);
    assert_eq!(packet.to_string(), "Packet (id: 6, len: 3)");
    assert_eq!(packet.len(), 3);
}

#[test]
fn empty_payload_is_one_frame() {
    let packet = Packet::new(3, vec![]);
    let frames = packet.to_frames();
    assert_eq!(frames.len(), 1);
    let mut expected = [0u8; 65];
    expected[1] = 3;
    assert_eq!(frames[0], expected);
    assert_eq!(Packet::from_frames(&frames), Ok(packet));
}

#[test]
fn linearized_bytes_hold_big_endian_length() {
    let packet = Packet::new(9, vec![7u8; 300]);
    let bytes = packet.build_vec();
    assert_eq!(bytes.len(), 303);
    assert_eq!(&bytes[..3], &[9u8, 1, 44]);
    assert!(bytes[3..].iter().all(|b| *b == 7));
}

#[test]
fn later_frames_start_with_the_marker() {
    let payload: Vec<u8> = (0..130u32).map(|i| (i % 251) as u8).collect();
    let packet = Packet::new(100, payload.clone());
    let frames = packet.to_frames();
    // 133 bytes: 64 in the first frame, 63 in the second, 6 in the third
    assert_eq!(frames.len(), 3);
    assert_eq!(frames[0][0], 0);
    assert_eq!(&frames[0][1..4], &[100u8, 0, 130]);
    assert_eq!(&frames[0][4..65], &payload[..61]);
    assert_eq!(frames[1][0], 0);
    assert_eq!(frames[1][1], 0xFE);
    assert_eq!(&frames[1][2..65], &payload[61..124]);
    assert_eq!(frames[2][1], 0xFE);
    assert_eq!(&frames[2][2..8], &payload[124..130]);
    assert!(frames[2][8..].iter().all(|b| *b == 0));
}

#[test]
fn payload_that_fills_the_first_frame_is_not_cut() {
    // 61 payload bytes and the header fill the first frame exactly
    let packet = Packet::new(1, vec![0xAB; 61]);
    let frames = packet.to_frames();
    assert_eq!(frames.len(), 1);
    assert_eq!(frames[0][64], 0xAB);
    assert_eq!(Packet::from_frames(&frames), Ok(packet));
    // one byte more needs a second frame, which carries the marker and that byte
    let packet = Packet::new(1, vec![0xAB; 62]);
    let frames = packet.to_frames();
    assert_eq!(frames.len(), 2);
    assert_eq!(&frames[1][..3], &[0u8, 0xFE, 0xAB]);
    assert!(frames[1][3..].iter().all(|b| *b == 0));
    assert_eq!(Packet::from_frames(&frames), Ok(packet));
}

#[test]
fn frames_round_trip_for_every_boundary_length() {
    for len in [0usize, 1, 60, 61, 62, 63, 64, 65, 124, 125, 130, 500, 65535] {
        let payload: Vec<u8> = (0..len).map(|i| (i * 7 % 256) as u8).collect();
        let packet = Packet::new(0x42, payload);
        let frames = packet.to_frames();
        let bytes = 3 + len;
        let expected = if bytes <= 64 { 1 } else { 1 + (bytes - 64 + 62) / 63 };
        assert_eq!(frames.len(), expected, "frames for payload length {}", len);
        assert!(frames.len() >= (bytes + 63) / 64);
        assert_eq!(Packet::from_frames(&frames), Ok(packet), "payload length {}", len);
    }
}

#[test]
fn frame_counts_at_exact_values() {
    assert_eq!(Packet::new(0, vec![0; 0]).to_frames().len(), 1);
    assert_eq!(Packet::new(0, vec![0; 61]).to_frames().len(), 1);
    assert_eq!(Packet::new(0, vec![0; 62]).to_frames().len(), 2);
    assert_eq!(Packet::new(0, vec![0; 124]).to_frames().len(), 2);
    assert_eq!(Packet::new(0, vec![0; 125]).to_frames().len(), 3);
    assert_eq!(Packet::new(0, vec![0; 500]).to_frames().len(), 8);
}

#[test]
fn builder_hands_out_frames_one_by_one() {
    let packet = Packet::new(5, vec![9u8; 70]);
    let all = packet.to_frames();
    let mut builder = packet.build_packets();
    assert_eq!(builder.next(), Some(all[0]));
    let rest = builder.collect();
    assert_eq!(rest, all[1..].to_vec());
    assert_eq!(builder.next(), None);
    assert_eq!(builder.collect(), Vec::<[u8; 65]>::new());
}

#[test]
fn padded_form_announces_at_least_sixty_two_bytes() {
    let packet = Packet::new(5, vec![1, 2, 3]);
    let bytes = packet.build_vec_large();
    assert_eq!(bytes.len(), 65);
    assert_eq!(&bytes[..6], &[5u8, 0, 62, 1, 2, 3]);
    assert!(bytes[6..].iter().all(|b| *b == 0));
    let mut builder = packet.build_packets_large();
    let frames = builder.collect();
    assert_eq!(frames.len(), 2);
    assert_eq!(frames[1][1], 0xFE);
    // a longer payload is not padded
    let long = Packet::new(5, vec![4u8; 80]);
    assert_eq!(long.build_vec_large(), long.build_vec());
}

#[test]
fn try_new_refuses_a_payload_beyond_the_length_field() {
    assert!(Packet::try_new(1, vec![0u8; 65535]).is_some());
    assert!(Packet::try_new(1, vec![0u8; 65536]).is_none());
}

#[test]
fn missing_frames_are_an_invalid_packet() {
    let packet = Packet::new(7, vec![3u8; 200]);
    let mut frames = packet.to_frames();
    assert_eq!(frames.len(), 4);
    frames.pop();
    assert_eq!(Packet::from_frames(&frames), Err(Error::InvalidPacket));
    assert_eq!(Packet::from_frames(&vec![]), Err(Error::InvalidPacket));
}

#[test]
fn frames_after_the_last_needed_are_not_read() {
    let packet = Packet::new(7, vec![3u8; 10]);
    let mut frames = packet.to_frames();
    frames.push([0xFFu8; 65]);
    assert_eq!(Packet::from_frames(&frames), Ok(packet));
}

#[test]
fn later_reports_give_their_payload_after_the_marker() {
    // a reply that declares 200 bytes: 61 in the first report, 63 in each later one
    let mut first = [0u8; 64];
    first[0] = 1;
    first[1] = 0;
    first[2] = 200;
    for i in 3..64 {
        first[i] = 0x11;
    }
    let mut later = [0x22u8; 64];
    later[0] = 0xFE;
    let mut state = Reassembler::begin(&first);
    assert_eq!(state.id(), 1);
    assert_eq!(state.declared_len(), 200);
    assert_eq!(state.chunk_index(), 1);
    let mut asked = 0;
    while !state.is_complete() {
        asked += 1;
        state.absorb(&later);
    }
    // 61 + 63 + 63 + 13
    assert_eq!(asked, 3);
    assert_eq!(state.chunk_index(), 4);
    let packet = state.finish();
    assert_eq!(packet.data.len(), 200);
    assert!(packet.data[..61].iter().all(|b| *b == 0x11));
    assert!(packet.data[61..].iter().all(|b| *b == 0x22));
    let reports = vec![first, later, later, later];
    assert_eq!(Packet::from_reports(&reports), Ok(packet));
    assert_eq!(Packet::from_reports(&reports[..3].to_vec()), Err(Error::InvalidPacket));
}
