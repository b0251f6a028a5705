use qrcode::render::unicode;
use qrcode::QrCode;
use vaultpass::qr::qr_image;
use vaultpass::session::{Effect, Event, Request, Session, Status};

fn reference_image(data: &[u8]) -> String {
    QrCode::new(data)
        .unwrap()
        .render::<unicode::Dense1x2>()
        .dark_color(unicode::Dense1x2::Light)
        .light_color(unicode::Dense1x2::Dark)
        .build()
}

#[test]
fn qr_image_matches_the_inverted_renderer() {
    let payload = b"hunter2\n".to_vec();
    let image = qr_image(&payload).expect("a short payload fits");
    assert_eq!(image, reference_image(b"hunter2\n"));
    // the image is a rendering, not the payload handed back
    assert_ne!(image.as_bytes(), payload.as_slice());
    assert!(image.contains('\u{2588}') || image.contains('\u{2580}') || image.contains('\u{2584}'));
}

#[test]
fn qr_image_depends_on_every_byte() {
    let a = qr_image(&b"secret-a".to_vec()).unwrap();
    let b = qr_image(&b"secret-b".to_vec()).unwrap();
    assert_ne!(a, b);
}

#[test]
fn qr_image_rejects_oversized_payloads() {
    assert!(qr_image(&vec![0u8; 5000]).is_none());
}

#[test]
fn qr_session_prints_the_code_of_the_fetched_bytes() {
    let (mut ses, eff) = Session::start(Request::Qr {
        secret: "db".to_string(),
    });
    match eff {
        Effect::FetchPayload { args } => assert_eq!(
            args,
            vec![
                "read".to_string(),
                "-field=data".to_string(),
                "password-store/db".to_string(),
            ]
        ),
        _ => panic!("expected the payload fetch"),
    }
    let r = ses.step(Event::Fetched {
        success: true,
        payload: b"hunter2\n".to_vec(),
    });
    match r {
        Status::Running {
            effect: Effect::ShowText { text },
        } => assert_eq!(text, reference_image(b"hunter2\n")),
        _ => panic!("expected the printed image"),
    }
    let r = ses.step(Event::Exited { success: true });
    assert!(matches!(r, Status::Done));
}
