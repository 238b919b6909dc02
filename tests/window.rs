use image_compressor::status::StatusColor;
use image_compressor::ui::{path_label, UiState};
use image_compressor::worker::CompressionOutcome;

#[test]
fn launch_state() {
    let s = UiState::new();
    assert_eq!(s.quality(), 80);
    assert!(!s.is_busy());
    assert_eq!(s.status().as_str(), "Ready");
    assert!(s.input_path().is_none());
    assert!(s.output_path().is_none());
    assert!(!s.can_compress());
    assert_eq!(s.status_color(), StatusColor::Gray);
}

#[test]
fn quality_is_clamped() {
    let mut s = UiState::new();
    s.set_quality(0);
    assert_eq!(s.quality(), 1);
    s.set_quality(-40);
    assert_eq!(s.quality(), 1);
    s.set_quality(101);
    assert_eq!(s.quality(), 100);
    s.set_quality(i64::MAX);
    assert_eq!(s.quality(), 100);
    s.set_quality(1);
    assert_eq!(s.quality(), 1);
    s.set_quality(57);
    assert_eq!(s.quality(), 57);
    s.set_quality(100);
    assert_eq!(s.quality(), 100);
}

#[test]
fn picking_paths_sets_status() {
    let mut s = UiState::new();
    s.choose_input("photo.png".to_string());
    assert_eq!(s.status().as_str(), "Input file selected");
    assert!(!s.can_compress());
    s.choose_output("photo.jpg".to_string());
    assert_eq!(s.status().as_str(), "Output file selected");
    assert!(s.can_compress());
    assert_eq!(s.input_path().as_deref(), Some("photo.png"));
    assert_eq!(s.output_path().as_deref(), Some("photo.jpg"));
}

#[test]
fn submit_needs_both_paths() {
    let mut s = UiState::new();
    assert!(s.submit().is_none());
    assert!(!s.is_busy());
    assert_eq!(s.status().as_str(), "Ready");
    s.choose_output("out.jpg".to_string());
    assert!(s.submit().is_none());
    assert!(!s.is_busy());
}

#[test]
fn second_submit_while_busy_is_rejected() {
    let mut s = UiState::new();
    s.choose_input("photo.png".to_string());
    s.choose_output("photo.jpg".to_string());
    s.set_quality(50);
    let req = s.submit().expect("first submit is accepted");
    assert_eq!(req.input_path, "photo.png");
    assert_eq!(req.output_path, "photo.jpg");
    assert_eq!(req.quality, 50);
    assert!(s.is_busy());
    assert_eq!(s.status().as_str(), "Compressing...");
    assert!(!s.can_compress());
    assert!(s.submit().is_none());
    assert!(s.is_busy());
    assert_eq!(s.status().as_str(), "Compressing...");
}

#[test]
fn one_return_to_idle_per_request() {
    let mut s = UiState::new();
    s.choose_input("in.png".to_string());
    s.choose_output("out.png".to_string());
    let mut sent = 0;
    let mut idle_again = 0;
    for round in 0..3 {
        assert!(s.submit().is_some());
        sent += 1;
        assert!(s.submit().is_none());
        assert!(s.poll(None));
        assert!(s.is_busy());
        let outcome = if round % 2 == 0 {
            CompressionOutcome::Success("Success: saved to out.png".to_string())
        } else {
            CompressionOutcome::Failure("Error saving image: disk full".to_string())
        };
        let was_busy = s.is_busy();
        let repaint = s.poll(Some(outcome));
        if was_busy && !s.is_busy() {
            idle_again += 1;
        }
        assert!(!repaint);
        assert!(!s.poll(None));
    }
    assert_eq!(sent, 3);
    assert_eq!(idle_again, 3);
    assert_eq!(s.status().as_str(), "Success: saved to out.png");
}

#[test]
fn outcome_sets_status_and_color() {
    let mut s = UiState::new();
    s.choose_input("in.png".to_string());
    s.choose_output("out.jpg".to_string());
    assert!(s.submit().is_some());
    s.receive(CompressionOutcome::Failure("Error loading image: gone".to_string()));
    assert!(!s.is_busy());
    assert_eq!(s.status().as_str(), "Error loading image: gone");
    assert_eq!(s.status_color(), StatusColor::Red);
    assert!(s.can_compress());
    assert!(s.submit().is_some());
    s.receive(CompressionOutcome::Success("Success: saved to out.jpg".to_string()));
    assert_eq!(s.status_color(), StatusColor::Green);
}

#[test]
fn path_labels() {
    assert_eq!(path_label(&None), "No file selected");
    assert_eq!(path_label(&Some("/a/b.png".to_string())), "/a/b.png");
}
