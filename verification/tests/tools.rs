use soryos_assistant::audio::{encode_wav, energy, AudioChunk, AudioFormat, MockStt, MockTts, NoAudioStt, SilentTts};
use soryos_assistant::tool::ToolError;
use soryos_assistant::tools::{
    chrono_now, entry_kind, list_dir_output, list_dir_wants_more, list_entry, read_file_output,
    default_tools, required, shell_output, shell_request, shell_timeout_error, write_file_output, BuiltinTool,
    ShellTool, ToolRegistry,
};
use soryos_assistant::voice::VoiceError;

fn json(text: &str) -> serde_json::Value {
    serde_json::from_str(text).unwrap()
}

#[test]
fn registry_registers_and_lists() {
    let mut r: ToolRegistry<BuiltinTool> = ToolRegistry::new();
    assert!(r.is_empty());
    r.register(BuiltinTool::SystemInfo.schema(), BuiltinTool::SystemInfo);
    assert_eq!(r.len(), 1);
    assert_eq!(r.names(), vec!["system_info".to_string()]);
    assert_eq!(r.schemas().len(), 1);
    assert_eq!(r.get("system_info"), Some(&BuiltinTool::SystemInfo));
}

#[test]
fn default_tools_are_described() {
    let names: Vec<&str> = default_tools().into_iter().map(|t| t.name()).collect();
    assert_eq!(names, vec!["read_file", "write_file", "list_dir", "run_shell", "system_info"]);
    let schema = BuiltinTool::WriteFile.parameters_schema();
    assert_eq!(schema["type"], "object");
    assert_eq!(schema["required"], json(r#"["path", "content"]"#));
    assert_eq!(schema["properties"]["content"]["type"], "string");
}

#[test]
fn missing_field_is_invalid_input() {
    let err = required(&json("{}"), "path").unwrap_err();
    assert!(matches!(err, ToolError::InvalidInput(m) if m == "missing required field 'path'"));
    assert!(required(&json(r#"{"path": ""}"#), "path").is_err());
    assert_eq!(required(&json(r#"{"path": "/x"}"#), "path").unwrap(), "/x");
}

#[test]
fn write_then_read_round_trip() {
    let out = write_file_output("/tmp/hello.txt".to_string(), "bonjour");
    assert_eq!(out["bytes_written"], 7);
    let read = read_file_output("/tmp/hello.txt".to_string(), "bonjour").unwrap();
    assert_eq!(read["content"], "bonjour");
    assert_eq!(read["truncated"], false);
    let listed = list_dir_output("/tmp".to_string(), vec![list_entry("hello.txt".to_string(), entry_kind(Some((false, false))))]);
    assert!(!listed["entries"].as_array().unwrap().is_empty());
    assert_eq!(listed["entries"][0]["kind"], "file");
}

#[test]
fn large_files_are_cut_at_256_kib() {
    let big = "a".repeat(300 * 1024);
    let read = read_file_output("/big".to_string(), &big).unwrap();
    assert_eq!(read["content"].as_str().unwrap().len(), 256 * 1024);
    assert_eq!(read["truncated"], true);
    let split = format!("{}é", "a".repeat(256 * 1024 - 1));
    assert!(read_file_output("/split".to_string(), &split).is_none());
}

#[test]
fn listing_stops_at_500_entries() {
    assert!(list_dir_wants_more(499));
    assert!(!list_dir_wants_more(500));
    assert_eq!(entry_kind(None), "unknown");
    assert_eq!(entry_kind(Some((true, false))), "dir");
    assert_eq!(entry_kind(Some((false, true))), "symlink");
}

#[test]
fn echo_works() {
    let (command, workdir) = shell_request(&json(r#"{"command": "echo hello"}"#)).unwrap();
    assert_eq!(command, "echo hello");
    assert!(workdir.is_none());
    let out = shell_output(command, Some(0), true, "hello\n", "").unwrap();
    assert!(out["success"].as_bool().unwrap());
    assert!(out["stdout"].as_str().unwrap().contains("hello"));
    assert_eq!(out["exit_code"], 0);
    assert!(shell_request(&json(r#"{"command": "  "}"#)).is_err());
    assert_eq!(ShellTool::default().timeout_secs, 30);
}

#[test]
fn shell_output_is_bounded() {
    let big = "o".repeat(40 * 1024);
    let out = shell_output("x".to_string(), None, false, &big, &big).unwrap();
    assert_eq!(out["stdout"].as_str().unwrap().len(), 32 * 1024);
    assert_eq!(out["truncated"], true);
    assert!(out["exit_code"].is_null());
    assert!(matches!(shell_timeout_error(30), ToolError::Execution(m) if m == "command timed out after 30s"));
}

#[test]
fn reports_os() {
    let now = chrono_now();
    assert!(!now.is_empty() && now.chars().all(|c| c.is_ascii_digit()));
}

#[test]
fn silence_has_zero_level() {
    let c = AudioChunk::silence(100, AudioFormat::default());
    assert_eq!(energy(&c.samples), 0);
    assert_eq!(c.duration_ms(), 100);
}

#[test]
fn energy_sums_squares() {
    assert_eq!(energy(&[3, -4]), 25);
    assert_eq!(energy(&[i16::MIN]), 1 << 30);
    assert_eq!(energy(&[]), 0);
}

#[test]
fn wav_header_is_valid() {
    let wav = encode_wav(&[0, 1000, -1000], AudioFormat::default());
    assert_eq!(&wav[0..4], b"RIFF");
    assert_eq!(&wav[8..12], b"WAVE");
    assert_eq!(wav.len(), 44 + 6);
    assert_eq!(&wav[44..], &[0u8, 0, 0xE8, 0x03, 0x18, 0xFC]);
}

#[test]
fn mock_produces_wav() {
    let tts = MockTts;
    let wav = tts.synthesize("Bonjour").unwrap();
    assert_eq!(&wav[0..4], b"RIFF");
    assert!(tts.synthesize("  ").is_err());
}

#[test]
fn synthesized_length_follows_the_text() {
    assert_eq!(MockTts.synthesize("Bonjour").unwrap().len(), 44 + 2 * 2240);
    assert_eq!(MockTts.synthesize("a").unwrap().len(), 44 + 2 * 1600);
    assert_eq!(SilentTts.synthesize("").unwrap().len(), 44 + 2 * 3200);
    assert_eq!(MockTts.name(), "mock-tts");
    assert_eq!(SilentTts.name(), "silent-tts");
}

#[test]
fn mock_transcribes() {
    let stt = MockStt::new("hello".to_string());
    assert_eq!(stt.transcribe(&[1, 2, 3]).unwrap(), "hello");
    assert!(stt.transcribe(&[]).is_err());
}

#[test]
fn transcribers_report_their_errors() {
    assert!(matches!(MockStt::new("x".to_string()).transcribe(&[]), Err(VoiceError::Transcription(_))));
    assert_eq!(MockStt::default().transcribe(&[0]).unwrap(), "Bonjour, ceci est une transcription simulée.");
    assert!(matches!(NoAudioStt.transcribe(&[1]), Err(VoiceError::Unavailable(_))));
}
