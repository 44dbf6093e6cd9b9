use anubis_core::audio::AudioProcessor;
use anubis_core::text::join;
use anubis_core::tts::router::{TtsRouter, VoiceSource};
use anubis_core::tts::voices::{find, VoiceMeta};
use anubis_core::tts::PiperTts;

struct Fixed(Vec<&'static str>);

impl VoiceSource for Fixed {
    fn available_voices(&self) -> Vec<VoiceMeta> {
        self.0.iter().map(|id| find(id).unwrap()).collect()
    }
}

#[test]
fn paths_join_like_std() {
    for (a, b) in [("dir", "x.wav"), ("dir/", "x.wav"), ("", "x.wav"), ("dir", "/abs"), ("/", "x")] {
        let expected = std::path::Path::new(a).join(b);
        assert_eq!(join(a, b), expected.to_str().unwrap(), "{:?}", (a, b));
    }
}

#[test]
fn scratch_and_model_paths() {
    let a = AudioProcessor::new("./audio_output");
    assert_eq!(a.tmp_path("abc", "ogg"), "./audio_output/abc.ogg");
    let p = PiperTts::new("piper".to_string(), "./voices".to_string());
    assert_eq!(p.model_path("it_IT-paola-medium", "it"), "./voices/it/it_IT-paola-medium.onnx");
    assert_eq!(p.binary, "piper");
}

#[test]
fn router_unions_and_picks() {
    let r = TtsRouter::new(vec![
        Fixed(vec!["en_US-amy-medium", "it_IT-paola-medium"]),
        Fixed(vec!["en_US-amy-medium", "af_heart"]),
    ]);
    let ids: Vec<&str> = r.available_voices().iter().map(|v| v.id).collect();
    assert_eq!(ids, vec!["en_US-amy-medium", "it_IT-paola-medium", "af_heart"]);
    assert_eq!(r.pick("af_heart").unwrap(), 1);
    assert_eq!(r.pick("en_US-amy-medium").unwrap(), 0);
    assert_eq!(r.pick("nobody").unwrap(), 0);
    assert_eq!(r.engine(1).0.len(), 2);
    let empty: TtsRouter<Fixed> = TtsRouter::new(vec![]);
    assert!(empty.available_voices().is_empty());
    assert!(empty.pick("x").is_err());
}
