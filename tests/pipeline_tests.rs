use camera_webrtc::fourcc::fourcc_to_string;
use camera_webrtc::codec::{Error, Vp8Config};
use camera_webrtc::encoder::{
    encode_flags, encoder_settings, reconfigure_encoder, EncodedFrame, Vp8Frame, ENCODER_THREADS,
    ERROR_RESILIENT_DEFAULT, VPX_EFLAG_FORCE_KF,
};
use camera_webrtc::frame::{pixel_data_len, CameraFrame, PlaneGeometry};
use camera_webrtc::image::{ImageFormat, ImageView, Plane};
use camera_webrtc::pipeline::{capture_step, CaptureAction, CaptureEvent, EncodeSession, PictureLossFlag};
use camera_webrtc::rtcp::{is_picture_loss, process_rtcp_packets, RtcpHeader};
use camera_webrtc::stream::{
    find_stream, fourcc_from_bytes, pick_largest_420_stream, pick_smallest_420_stream,
    requested_pixel_format, CameraStream, Eye, Stream, StreamFormat, FOURCC_420V, FOURCC_NV12,
    FOURCC_V024, PIXEL_FORMAT_ARGB,
};

fn fmt(width: u32, height: u32, fourcc: u32) -> StreamFormat {
    StreamFormat { width, height, fourcc }
}

const RGBA: u32 = 0x5247_4241;

#[test]
fn config_accepts_even_dimensions() {
    let c = Vp8Config::new(640, 480, [1, 1000], 5000).unwrap();
    assert_eq!(c.width, 640);
    assert_eq!(c.height, 480);
    assert_eq!(c.timebase, [1, 1000]);
    assert_eq!(c.bitrate, 5000);
}

#[test]
fn config_rejects_odd_width() {
    assert!(matches!(Vp8Config::new(641, 480, [1, 1000], 5000), Err(Error::InvalidParam("width must be even"))));
    assert!(matches!(Vp8Config::new(641, 481, [1, 1000], 5000), Err(Error::InvalidParam("width must be even"))));
}

#[test]
fn config_rejects_odd_height() {
    assert!(matches!(Vp8Config::new(640, 481, [1, 1000], 5000), Err(Error::InvalidParam("height must be even"))));
}

#[test]
fn odd_dimensions_refused_by_pipeline() {
    let mut s = EncodeSession::new();
    let mut flag = PictureLossFlag::new();
    flag.raise();
    let r = s.on_frame(&fmt(641, 480, FOURCC_420V), 10, &mut flag);
    assert!(matches!(r, Err(Error::InvalidParam(_))));
    assert!(s.config().is_none());
    assert!(flag.get());
}

#[test]
fn wrap_i420_luma_is_prefix() {
    let bytes: Vec<u8> = (0..24u8).collect();
    let v = ImageView::wrap(&bytes, 4, 4, ImageFormat::I420).unwrap();
    assert_eq!(v.read_plane(Plane::Y).unwrap(), &bytes[0..16]);
    assert_eq!(v.read_plane(Plane::U).unwrap(), &bytes[16..20]);
    assert_eq!(v.read_plane(Plane::V).unwrap(), &bytes[20..24]);
    assert!(v.read_plane(Plane::UV).is_none());
}

#[test]
fn wrap_yv12_puts_v_first() {
    let bytes: Vec<u8> = (0..24u8).collect();
    let v = ImageView::wrap(&bytes, 4, 4, ImageFormat::YV12).unwrap();
    assert_eq!(v.read_plane(Plane::V).unwrap(), &bytes[16..20]);
    assert_eq!(v.read_plane(Plane::U).unwrap(), &bytes[20..24]);
}

#[test]
fn wrap_nv12_interleaved_plane() {
    let bytes: Vec<u8> = (0..30u8).collect();
    let v = ImageView::wrap(&bytes, 4, 4, ImageFormat::NV12).unwrap();
    assert_eq!(v.read_plane(Plane::Y).unwrap(), &bytes[0..16]);
    assert_eq!(v.read_plane(Plane::UV).unwrap(), &bytes[16..24]);
    assert_eq!(v.plane_span(Plane::UV), Some((16, 8, 4)));
    assert!(v.read_plane(Plane::U).is_none());
}

#[test]
fn wrap_rejects_short_buffer() {
    let bytes = vec![0u8; 23];
    assert!(matches!(ImageView::wrap(&bytes, 4, 4, ImageFormat::I420), Err(Error::ImageWrapNotCreated)));
}

#[test]
fn wrap_rejects_odd_geometry() {
    let bytes = vec![0u8; 100];
    assert!(matches!(ImageView::wrap(&bytes, 5, 4, ImageFormat::NV12), Err(Error::InvalidParam(_))));
}

#[test]
fn frame_720p_sizes() {
    let bytes = vec![7u8; 1280 * 720 * 3 / 2];
    let v = ImageView::wrap(&bytes, 1280, 720, ImageFormat::NV12).unwrap();
    assert_eq!(v.read_plane(Plane::Y).unwrap().len(), 1280 * 720);
    assert_eq!(v.read_plane(Plane::UV).unwrap().len(), 1280 * 720 / 2);
}

#[test]
fn smallest_420_stream_minimum_height_first_on_ties() {
    let streams = vec![
        fmt(1920, 1080, FOURCC_420V),
        fmt(320, 240, RGBA),
        fmt(640, 480, FOURCC_420V),
        fmt(800, 480, FOURCC_NV12),
        fmt(1280, 720, FOURCC_420V),
    ];
    assert_eq!(pick_smallest_420_stream(&streams), Some(2));
}

#[test]
fn smallest_420_stream_none_without_420() {
    let streams = vec![fmt(320, 240, RGBA), fmt(640, 480, RGBA)];
    assert_eq!(pick_smallest_420_stream(&streams), None);
    assert_eq!(pick_smallest_420_stream(&Vec::new()), None);
}

#[test]
fn largest_420_stream_last_on_ties() {
    let streams = vec![
        fmt(1280, 720, FOURCC_420V),
        fmt(1920, 1080, RGBA),
        fmt(1280, 720, FOURCC_NV12),
        fmt(640, 480, FOURCC_420V),
    ];
    assert_eq!(pick_largest_420_stream(&streams), Some(2));
}

#[test]
fn fourcc_codes() {
    assert_eq!(fourcc_from_bytes(*b"420v"), FOURCC_420V);
    assert_eq!(fourcc_from_bytes(*b"NV12"), FOURCC_NV12);
    assert_eq!(fourcc_from_bytes(*b"v024"), FOURCC_V024);
    assert_eq!(Eye.normalize_fourcc(FOURCC_V024), FOURCC_420V);
    assert_eq!(Eye.normalize_fourcc(RGBA), RGBA);
}

#[test]
fn camera_stream_keeps_format() {
    let s = CameraStream::new(fmt(640, 480, FOURCC_420V));
    assert_eq!(s.format(), fmt(640, 480, FOURCC_420V));
    let streams = vec![fmt(1280, 720, FOURCC_420V), fmt(640, 480, FOURCC_420V)];
    assert_eq!(find_stream(&streams, &s.format()), Some(1));
    assert_eq!(find_stream(&streams, &fmt(1, 1, RGBA)), None);
}

#[test]
fn requested_format_defaults_to_argb() {
    assert_eq!(requested_pixel_format(None), PIXEL_FORMAT_ARGB);
    assert_eq!(requested_pixel_format(Some(fmt(640, 480, FOURCC_420V))), FOURCC_420V);
}

#[test]
fn reconfigure_only_on_geometry_change() {
    let f720 = fmt(1280, 720, FOURCC_420V);
    let first = reconfigure_encoder(None, &f720).unwrap().unwrap();
    assert_eq!((first.width, first.height, first.timebase, first.bitrate), (1280, 720, [1, 1000], 5000));
    assert!(reconfigure_encoder(Some(first), &f720).unwrap().is_none());
    let next = reconfigure_encoder(Some(first), &fmt(640, 480, FOURCC_420V)).unwrap().unwrap();
    assert_eq!((next.width, next.height), (640, 480));
    assert!(matches!(reconfigure_encoder(Some(first), &fmt(641, 480, FOURCC_420V)), Err(Error::InvalidParam(_))));
}

#[test]
fn session_timestamps_non_decreasing_and_reset() {
    let mut s = EncodeSession::new();
    let mut flag = PictureLossFlag::new();
    let f720 = fmt(1280, 720, FOURCC_420V);
    let p = s.on_frame(&f720, 1000, &mut flag).unwrap();
    assert!(p.reconfigure.is_some());
    assert_eq!(p.pts, 0);
    let p = s.on_frame(&f720, 1033, &mut flag).unwrap();
    assert!(p.reconfigure.is_none());
    assert_eq!(p.pts, 33);
    let p = s.on_frame(&f720, 1020, &mut flag).unwrap();
    assert_eq!(p.pts, 33);
    let p = s.on_frame(&f720, 1100, &mut flag).unwrap();
    assert_eq!(p.pts, 100);
    let p = s.on_frame(&fmt(640, 480, FOURCC_420V), 1200, &mut flag).unwrap();
    let c = p.reconfigure.unwrap();
    assert_eq!((c.width, c.height), (640, 480));
    assert_eq!(p.pts, 0);
    let p = s.on_frame(&fmt(640, 480, FOURCC_420V), 1233, &mut flag).unwrap();
    assert_eq!(p.pts, 33);
}

#[test]
fn picture_loss_forces_next_keyframe_once() {
    let mut s = EncodeSession::new();
    let mut flag = PictureLossFlag::new();
    let f = fmt(640, 480, FOURCC_420V);
    assert!(!s.on_frame(&f, 0, &mut flag).unwrap().force_keyframe);
    assert!(!flag.raise());
    assert!(flag.raise());
    assert!(s.on_frame(&f, 33, &mut flag).unwrap().force_keyframe);
    assert!(!flag.get());
    assert!(!s.on_frame(&f, 66, &mut flag).unwrap().force_keyframe);
}

#[test]
fn rtcp_pli_raises_flag() {
    let pli = RtcpHeader { packet_type: 206, count: 1 };
    let fir = RtcpHeader { packet_type: 206, count: 4 };
    let rr = RtcpHeader { packet_type: 201, count: 1 };
    assert!(is_picture_loss(&pli));
    assert!(!is_picture_loss(&fir));
    assert!(!is_picture_loss(&rr));
    let mut flag = PictureLossFlag::new();
    assert!(!process_rtcp_packets(&vec![rr, fir], &mut flag));
    assert!(!flag.get());
    assert!(process_rtcp_packets(&vec![rr, pli, pli], &mut flag));
    assert!(flag.get());
    assert!(!process_rtcp_packets(&vec![pli], &mut flag));
    assert!(flag.take());
    assert!(!flag.get());
}

#[test]
fn encoder_settings_and_flags() {
    let c = Vp8Config::new(1280, 720, [1, 1000], 5000).unwrap();
    let s = encoder_settings(&c);
    assert_eq!((s.width, s.height, s.timebase_num, s.timebase_den, s.target_bitrate), (1280, 720, 1, 1000, 5000));
    assert_eq!(s.threads, ENCODER_THREADS);
    assert_eq!(s.threads, 8);
    assert_eq!(s.error_resilient, ERROR_RESILIENT_DEFAULT);
    assert_eq!(encode_flags(true), VPX_EFLAG_FORCE_KF);
    assert_eq!(encode_flags(false), 0);
}

#[test]
fn vp8_frame_keyframe_flag() {
    let f = Vp8Frame::new(vec![1, 2, 3], 66, 33, 640, 480, 0x1 | 0x4 | 0x100);
    assert!(f.keyframe());
    assert_eq!(f.flags, 0x5);
    let e = EncodedFrame::from_vp8(f);
    assert_eq!(e.bytes, vec![1, 2, 3]);
    assert!(e.keyframe);
    assert_eq!(e.pts, 66);
    let g = Vp8Frame::new(vec![9], 0, 33, 640, 480, 0x2);
    assert!(!g.keyframe());
}

#[test]
fn captured_rgb_is_converted_to_nv12() {
    let rgb = vec![0u8; 2 * 2 * 3];
    let f = CameraFrame::from_capture(&rgb, 2, 2).unwrap();
    assert_eq!(f.data(), &[0u8, 0, 0, 0, 128, 128][..]);
    assert_eq!(f.size_and_pixel_format(), (2, 2, FOURCC_420V));
    let white = vec![255u8; 2 * 2 * 3];
    let f = CameraFrame::from_capture(&white, 2, 2).unwrap();
    assert_eq!(f.data().len(), 6);
    assert_eq!(f.data()[0], 255);
}

#[test]
fn captured_nv12_is_kept() {
    let nv12: Vec<u8> = (0..6u8).collect();
    let f = CameraFrame::from_capture(&nv12, 2, 2).unwrap();
    assert_eq!(f.data(), &nv12[..]);
    assert_eq!(f.format(), fmt(2, 2, FOURCC_420V));
}

#[test]
fn captured_rgb_of_odd_size_is_skipped() {
    let rgb = vec![0u8; 3 * 3 * 3];
    assert!(CameraFrame::from_capture(&rgb, 3, 3).is_none());
}

#[test]
fn pixel_buffer_lengths() {
    let planes = vec![
        PlaneGeometry { bytes_per_row: 1280, height: 720 },
        PlaneGeometry { bytes_per_row: 1280, height: 360 },
    ];
    assert_eq!(pixel_data_len(true, &planes, 0, 0), Some(1280 * 1080));
    assert_eq!(pixel_data_len(false, &planes, 5120, 720), Some(5120 * 720));
    assert_eq!(pixel_data_len(false, &planes, usize::MAX, 2), None);
    let huge = vec![PlaneGeometry { bytes_per_row: usize::MAX, height: 1 }, PlaneGeometry { bytes_per_row: 1, height: 1 }];
    assert_eq!(pixel_data_len(true, &huge, 0, 0), None);
}

#[test]
fn capture_loop_decisions() {
    assert_eq!(capture_step(true, CaptureEvent::Frame), CaptureAction::Stop);
    assert_eq!(capture_step(false, CaptureEvent::Frame), CaptureAction::Publish);
    assert_eq!(capture_step(false, CaptureEvent::Empty), CaptureAction::Skip);
    assert_eq!(capture_step(false, CaptureEvent::Ended), CaptureAction::Stop);
}

#[test]
fn fourcc_names() {
    assert_eq!(fourcc_to_string(FOURCC_420V), "420v");
    assert_eq!(fourcc_to_string(FOURCC_NV12), "NV12");
    assert_eq!(fourcc_to_string(32), "ARGB");
    assert_eq!(fourcc_to_string(24), "RGB ");
    assert_eq!(fourcc_to_string(0x0000_1a2b), "0x00001A2B");
    assert_eq!(fourcc_to_string(0xFF30_3030), "\u{FFFD}000");
}

#[test]
fn converted_rgb_has_nv12_length() {
    let rgb: Vec<u8> = (0..(4 * 2 * 3) as u32).map(|i| (i * 10) as u8).collect();
    let f = CameraFrame::from_capture(&rgb, 4, 2).unwrap();
    assert_eq!(f.data().len(), 4 * 2 * 3 / 2);
    let v = ImageView::wrap(f.data(), 4, 2, ImageFormat::NV12).unwrap();
    assert_eq!(v.read_plane(Plane::Y).unwrap().len(), 8);
}

#[test]
fn captured_short_buffer_is_skipped() {
    let short = vec![0u8; 5];
    assert!(CameraFrame::from_capture(&short, 2, 2).is_none());
    let long = vec![1u8; 7];
    assert_eq!(CameraFrame::from_capture(&long, 2, 2).unwrap().data(), &long[..]);
}

#[test]
fn eye_streams_normalized_then_picked() {
    let streams = vec![fmt(1280, 720, FOURCC_V024), fmt(640, 480, FOURCC_V024), fmt(320, 240, RGBA)];
    let n = Eye.normalize_streams(&streams);
    assert_eq!(n, vec![fmt(1280, 720, FOURCC_420V), fmt(640, 480, FOURCC_420V), fmt(320, 240, RGBA)]);
    assert_eq!(pick_smallest_420_stream(&n), Some(1));
    assert_eq!(pick_smallest_420_stream(&streams), None);
}
