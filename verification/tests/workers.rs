use handy_core::managers::qwen_mlx;
use handy_core::managers::sherpa_onnx::{
    self, acknowledgement_outcome, managed_python_path, managed_runtime_dir, pcm16_le_bytes,
    pcm16_payload, stream_feed_outcome, STREAM_CANCEL_FAILURE,
};
use handy_core::managers::worker_protocol::{failure_text, RequestIds};

#[test]
fn request_ids_count_up_from_one() {
    let mut ids = RequestIds::new();
    assert_eq!(ids.take(), 1);
    assert_eq!(ids.take(), 2);
    assert_eq!(ids.take(), 3);
}

#[test]
fn failure_messages() {
    assert_eq!(failure_text("X failed", Some("boom".to_string())), "X failed: boom");
    assert_eq!(failure_text("X failed", None), "X failed: unknown error");
    assert_eq!(
        qwen_mlx::load_outcome(false, None).unwrap_err(),
        "Qwen3 MLX worker failed to load model: unknown error"
    );
    assert!(qwen_mlx::load_outcome(true, Some("ignored".to_string())).is_ok());
    assert_eq!(
        sherpa_onnx::load_outcome(false, Some("no model".to_string())).unwrap_err(),
        "sherpa-onnx worker failed to load model: no model"
    );
}

#[test]
fn transcription_replies() {
    assert_eq!(qwen_mlx::transcribe_outcome(true, Some("hi".to_string()), None).unwrap(), "hi");
    assert_eq!(qwen_mlx::transcribe_outcome(true, None, None).unwrap(), "");
    assert_eq!(
        qwen_mlx::transcribe_outcome(false, Some("hi".to_string()), Some("oom".to_string())).unwrap_err(),
        "Qwen3 MLX transcription failed: oom"
    );
    assert_eq!(
        sherpa_onnx::transcribe_outcome(false, None, None).unwrap_err(),
        "sherpa-onnx transcription failed: unknown error"
    );
}

#[test]
fn streaming_replies() {
    let u = stream_feed_outcome(true, Some("all".to_string()), None, None).unwrap();
    assert_eq!(u.text, "all");
    assert_eq!(u.stable_text, "");
    assert!(stream_feed_outcome(false, None, None, Some("e".to_string())).is_err());
    assert_eq!(
        acknowledgement_outcome(false, None, STREAM_CANCEL_FAILURE).unwrap_err(),
        "sherpa-onnx streaming cancel failed: unknown error"
    );
    assert!(acknowledgement_outcome(true, None, STREAM_CANCEL_FAILURE).is_ok());
}

#[test]
fn pcm16_payload_is_base64_of_little_endian_samples() {
    assert_eq!(pcm16_le_bytes(&[1, -1, 0x1234, i16::MIN]), vec![1, 0, 0xff, 0xff, 0x34, 0x12, 0x00, 0x80]);
    assert_eq!(pcm16_payload(&[1, -1]), "AQD//w==");
    assert_eq!(pcm16_payload(&[0x1234]), "NBI=");
    assert_eq!(pcm16_payload(&[]), "");
}

#[test]
fn python_hint_files_and_runtime_paths() {
    assert_eq!(
        qwen_mlx::python_hint_files("/models/q"),
        vec!["/models/q/.handy-python".to_string(), "/models/qwen3_mlx_python.txt".to_string()]
    );
    assert_eq!(
        sherpa_onnx::python_hint_files("/models/s"),
        vec!["/models/s/.handy-sherpa-python".to_string(), "/models/sherpa_onnx_python.txt".to_string()]
    );
    assert_eq!(sherpa_onnx::python_hint_files("/"), vec!["/.handy-sherpa-python".to_string()]);
    assert_eq!(managed_runtime_dir("/models/s").unwrap(), "/models/.sherpa-onnx-runtime");
    assert_eq!(managed_runtime_dir("/").unwrap_err(), "model path has no parent: /");
    assert_eq!(
        managed_python_path("/models/s", false).unwrap(),
        "/models/.sherpa-onnx-runtime/bin/python"
    );
    assert_eq!(
        managed_python_path("/models/s", true).unwrap(),
        "/models/.sherpa-onnx-runtime/Scripts/python.exe"
    );
}
