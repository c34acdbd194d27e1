use transshot::api::audio_speech_url;
use transshot::api::chat_completions_url;
use transshot::api::first_choice_content;
use transshot::api::ChatChoice;
use transshot::api::ChatMessage;
use transshot::api::ChatResponse;
use transshot::errors::Error;
use transshot::geometry::filter_window_rects;
use transshot::geometry::RawWindow;
use transshot::geometry::WindowRect;
use transshot::settings::ServiceConfig;
use transshot::settings::Settings;
use transshot::text::u64_to_string;

#[test]
fn chat_url_from_clean_base() {
    assert_eq!(
        chat_completions_url("https://api.siliconflow.cn"),
        "https://api.siliconflow.cn/v1/chat/completions"
    );
}

#[test]
fn urls_strip_trailing_slashes() {
    assert_eq!(
        chat_completions_url("https://example.com/"),
        "https://example.com/v1/chat/completions"
    );
    assert_eq!(
        chat_completions_url("https://example.com///"),
        "https://example.com/v1/chat/completions"
    );
    assert_eq!(audio_speech_url("http://localhost:8000/"), "http://localhost:8000/v1/audio/speech");
}

#[test]
fn first_choice_is_trimmed_content() {
    let resp = ChatResponse {
        choices: vec![
            ChatChoice { message: ChatMessage { content: "  recognized text \n".to_string() } },
            ChatChoice { message: ChatMessage { content: "ignored".to_string() } },
        ],
    };
    assert_eq!(first_choice_content(&resp), Some("recognized text".to_string()));
}

#[test]
fn no_choices_means_no_content() {
    let resp = ChatResponse { choices: Vec::new() };
    assert_eq!(first_choice_content(&resp), None);
}

#[test]
fn default_settings_match_stock_configuration() {
    let s = Settings::default();
    assert_eq!(s.base_url, "https://api.siliconflow.cn");
    assert_eq!(s.api_key, "");
    assert_eq!(s.translation.model, "Qwen/Qwen2.5-7B-Instruct");
    assert_eq!(s.ocr.model, "PaddlePaddle/PaddleOCR-VL-1.5");
    assert_eq!(s.tts.model, "IndexTeam/IndexTTS-2");
    assert_eq!(s.source_language, "auto");
    assert_eq!(s.target_language, "zh-CN");
    assert_eq!(s.hotkey_screenshot, "Alt+A");
    assert_eq!(s.hotkey_region, "Alt+S");
}

#[test]
fn with_model_sets_model_and_empty_extra() {
    let c = ServiceConfig::with_model("some/model");
    assert_eq!(c.model, "some/model");
    assert_eq!(c.extra, "");
}

#[test]
fn decimal_rendering() {
    assert_eq!(u64_to_string(0), "0");
    assert_eq!(u64_to_string(7), "7");
    assert_eq!(u64_to_string(42), "42");
    assert_eq!(u64_to_string(1080), "1080");
    assert_eq!(u64_to_string(u64::MAX), "18446744073709551615");
}

#[test]
fn error_messages_carry_monitor_index() {
    assert_eq!(Error::NotFound { monitor: 3 }.message(), "No frozen screenshot for monitor 3");
    assert_eq!(
        Error::Permission { monitor: 1 }.message(),
        "Capture permission denied for monitor 1"
    );
    assert_eq!(Error::Configuration.message(), "No monitors found");
    assert_eq!(Error::Bounds.message(), "Crop rectangle outside source image");
    assert_eq!(Error::Decode.message(), "Failed to decode stored image");
    assert_eq!(Error::TransientWindowing.message(), "Overlay window could not be created");
}

fn raw(layer: i32, on_screen: bool, width: u64, height: u64) -> RawWindow {
    RawWindow { layer, on_screen, rect: WindowRect { x: 0, y: 0, width, height } }
}

#[test]
fn window_filter_keeps_normal_visible_windows_in_order() {
    let input = vec![
        raw(0, true, 80000, 60000),
        raw(25, true, 80000, 60000),  // overlay layer: dropped
        raw(0, false, 80000, 60000),  // off screen: dropped
        raw(0, true, 999, 60000),     // too narrow: dropped
        raw(0, true, 80000, 999),     // too short: dropped
        raw(0, true, 1000, 1000),     // exactly 10x10 logical units: kept
    ];
    let kept = filter_window_rects(&input);
    assert_eq!(kept.len(), 2);
    assert_eq!(kept[0], input[0].rect);
    assert_eq!(kept[1], input[5].rect);
}

#[test]
fn window_filter_of_empty_enumeration_is_empty() {
    assert!(filter_window_rects(&Vec::new()).is_empty());
}
