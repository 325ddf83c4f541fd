//! The two-stage QR strategy and the screen-capture feed.

use otp_vault::errors::CoreError;
use otp_vault::gateway::{HttpMethod, RequestBody};
use otp_vault::keystore::load_or_create_key;
use otp_vault::qr::{decode_qr, QrOutcome};
use otp_vault::screen::to_png;
use otp_vault::vault::{save_credentials, Session};

/// Renders `data` as a QR code and encodes it as a PNG, scaled up with a
/// quiet zone so the detector has something realistic to chew on.
fn qr_png(data: &str) -> Vec<u8> {
    let code = qrcode::QrCode::new(data.as_bytes()).unwrap();
    let colors = code.to_colors();
    let modules = code.width();
    let scale = 8usize;
    let quiet = 4usize;
    let side = (modules + 2 * quiet) * scale;
    let mut luma = vec![255u8; side * side];
    for my in 0..modules {
        for mx in 0..modules {
            if colors[my * modules + mx] == qrcode::Color::Dark {
                for dy in 0..scale {
                    for dx in 0..scale {
                        let x = (quiet + mx) * scale + dx;
                        let y = (quiet + my) * scale + dy;
                        luma[y * side + x] = 0;
                    }
                }
            }
        }
    }
    let mut png: Vec<u8> = Vec::new();
    let encoder = image::codecs::png::PngEncoder::new(std::io::Cursor::new(&mut png));
    image::ImageEncoder::write_image(
        encoder,
        &luma,
        side as u32,
        side as u32,
        image::ExtendedColorType::L8,
    )
    .unwrap();
    png
}

fn configured_session() -> Session {
    let km = load_or_create_key(None).unwrap();
    let mut session = Session::new();
    save_credentials(&mut session, "http://h", "tok".to_string(), &km.key).unwrap();
    session
}

#[test]
fn local_decode_wins_without_a_session() {
    let png = qr_png("otpauth://totp/Test?secret=JBSWY3DPEHPK3PXP");
    let session = Session::new();
    match decode_qr(&session, png) {
        Ok(QrOutcome::Decoded(content)) => {
            assert_eq!(content, "otpauth://totp/Test?secret=JBSWY3DPEHPK3PXP");
        },
        other => panic!("expected a local decode, got {other:?}"),
    }
}

#[test]
fn local_only_decode_reads_a_code_and_never_falls_back() {
    let data = "otpauth://totp/Local?secret=MFRGGZDF";
    let png = qr_png(data);
    assert_eq!(otp_vault::qr::decode_local(&png), Some(data.to_string()));
    // Anything unreadable is a plain miss, not an error.
    assert_eq!(otp_vault::qr::decode_local(&[1, 2, 3]), None);
}

#[test]
fn qr_fallback_needs_a_session() {
    // Not an image at all: the local attempt fails silently, and without a
    // session the strategy stops before any remote call.
    let session = Session::new();
    assert_eq!(decode_qr(&session, vec![1, 2, 3]), Err(CoreError::NotConfigured));
}

#[test]
fn qr_fallback_hands_back_the_remote_request() {
    let session = configured_session();
    let garbage = vec![9u8, 9, 9, 9];
    match decode_qr(&session, garbage.clone()) {
        Ok(QrOutcome::RemoteRequest(req)) => {
            assert_eq!(req.method, HttpMethod::Post);
            assert_eq!(req.url, b"http://h/api/v1/qrcode/decode".to_vec());
            assert_eq!(req.bearer, "tok");
            assert_eq!(req.body, RequestBody::QrImage(garbage));
        },
        other => panic!("expected the remote fallback, got {other:?}"),
    }
}

#[test]
fn valid_image_without_qr_falls_back_too() {
    // A readable PNG with no QR code in it: grid detection finds nothing.
    let blank = to_png(&[255u8; 4 * 64 * 64], 64, 64, 256).unwrap();
    let session = configured_session();
    match decode_qr(&session, blank) {
        Ok(QrOutcome::RemoteRequest(_)) => {},
        other => panic!("expected the remote fallback, got {other:?}"),
    }
}

#[test]
fn to_png_reorders_bgra_to_rgba() {
    // Two pixels per row, two rows, with a row stride of 12 (padding past
    // the 8 pixel bytes).  Pixel (0,0) is BGRA (1,2,3,4) and must come out
    // RGBA (3,2,1,4).
    let raw: Vec<u8> = vec![
        1, 2, 3, 4, 5, 6, 7, 8, 0, 0, 0, 0, // row 0: two pixels + padding
        9, 10, 11, 12, 13, 14, 15, 16, 0, 0, 0, 0, // row 1
    ];
    let png = to_png(&raw, 2, 2, 12).unwrap();
    let img = image::load_from_memory(&png).unwrap().to_rgba8();
    assert_eq!(img.width(), 2);
    assert_eq!(img.height(), 2);
    assert_eq!(img.get_pixel(0, 0).0, [3, 2, 1, 4]);
    assert_eq!(img.get_pixel(1, 0).0, [7, 6, 5, 8]);
    assert_eq!(img.get_pixel(0, 1).0, [11, 10, 9, 12]);
    assert_eq!(img.get_pixel(1, 1).0, [15, 14, 13, 16]);
}

#[test]
fn to_png_round_trips_through_the_local_decoder() {
    // Re-encode a QR image through the capture feed (RGBA source laid out as
    // BGRA with a tight stride) and make sure the decoder still reads it.
    let data = "otpauth://totp/Feed?secret=GEZDGNBVGY3TQOJQ";
    let png = qr_png(data);
    let img = image::load_from_memory(&png).unwrap().to_rgba8();
    let (w, h) = (img.width() as usize, img.height() as usize);
    // Swap each pixel to BGRA so the feed's reorder restores it.
    let mut bgra = Vec::with_capacity(4 * w * h);
    for p in img.pixels() {
        bgra.extend_from_slice(&[p.0[2], p.0[1], p.0[0], p.0[3]]);
    }
    let reencoded = to_png(&bgra, w, h, 4 * w).unwrap();
    let session = Session::new();
    match decode_qr(&session, reencoded) {
        Ok(QrOutcome::Decoded(content)) => assert_eq!(content, data),
        other => panic!("expected a local decode, got {other:?}"),
    }
}
