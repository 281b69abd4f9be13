use imgfetch::channel::Channel;
use imgfetch::extension::Extension;
use imgfetch::text::{i64_to_string, str_eq, u64_to_string};

#[test]
fn every_channel_tag_round_trips() {
    for c in Channel::all() {
        let tag = c.tag();
        assert_eq!(Channel::from_tag(tag), Some(c));
    }
    assert_eq!(Channel::from_tag("nsfw-general"), Some(Channel::NsfwGeneral));
    assert_eq!(Channel::from_tag("irl-3d"), Some(Channel::Irl3D));
    assert_eq!(Channel::from_tag("unknown"), None);
    assert_eq!(Channel::from_tag(""), None);
}

#[test]
fn every_extension_tag_round_trips() {
    let all = [
        Extension::Jpg,
        Extension::Jpeg,
        Extension::Png,
        Extension::Webp,
        Extension::Gif,
    ];
    for e in all {
        let tag = e.tag();
        assert_eq!(Extension::from_tag(tag), Some(e));
    }
    assert_eq!(Extension::from_tag("jpg"), Some(Extension::Jpg));
    assert_eq!(Extension::from_tag("bmp"), None);
}

#[test]
fn channel_tag_survives_a_json_envelope() {
    let text = "{\"meta\":{\"total\":1,\"offset\":0,\"count\":1,\"error\":null},\"data\":[{\"id\":7,\"channel_name\":\"furry\",\"url\":\"http://example.invalid/7.png\",\"extension\":\"png\",\"width\":10,\"height\":20,\"filesize\":1234}]}";
    let v: serde_json::Value = serde_json::from_str(text).unwrap();
    let channel_tag = v["data"][0]["channel_name"].as_str().unwrap();
    let c = Channel::from_tag(channel_tag).unwrap();
    assert_eq!(c, Channel::Furry);
    let reserialized = serde_json::to_string(&serde_json::Value::String(c.tag().to_string()))
        .unwrap();
    assert_eq!(reserialized, "\"furry\"");
    let extension_tag = v["data"][0]["extension"].as_str().unwrap();
    let e = Extension::from_tag(extension_tag).unwrap();
    assert_eq!(e, Extension::Png);
    assert_eq!(e.tag(), extension_tag);
}

#[test]
fn decimal_rendering_matches_standard_formatting() {
    assert_eq!(u64_to_string(0), "0");
    assert_eq!(u64_to_string(7), "7");
    assert_eq!(u64_to_string(96), "96");
    assert_eq!(u64_to_string(12345), "12345");
    assert_eq!(u64_to_string(u64::MAX), format!("{}", u64::MAX));
    assert_eq!(i64_to_string(0), "0");
    assert_eq!(i64_to_string(-1), "-1");
    assert_eq!(i64_to_string(-42), "-42");
    assert_eq!(i64_to_string(i64::MIN), format!("{}", i64::MIN));
    assert_eq!(i64_to_string(i64::MAX), format!("{}", i64::MAX));
}

#[test]
fn str_eq_agrees_with_equality() {
    assert!(str_eq("", ""));
    assert!(str_eq("media", "media"));
    assert!(!str_eq("media", "medias"));
    assert!(!str_eq("media", "Media"));
    assert!(!str_eq("yaoi", "yuri"));
}
