use sound_hearing_aid::runtime::{AppSource, SourceMode, SourceRouting};
use sound_hearing_aid::types::ChannelLayout;

#[test]
fn source_mode_labels() {
    assert_eq!(SourceMode::Demo.label(), "Demo");
    assert_eq!(SourceMode::SystemAudio.label(), "System Audio");
    assert!(!SourceMode::Demo.locks_layout());
    assert!(SourceMode::SystemAudio.locks_layout());
}

#[test]
fn app_source_layouts() {
    let mut demo = AppSource::demo(ChannelLayout::Surround71);
    assert_eq!(demo.mode(), SourceMode::Demo);
    assert_eq!(demo.layout(), ChannelLayout::Surround71);
    demo.set_layout(ChannelLayout::Stereo);
    assert_eq!(demo.layout(), ChannelLayout::Stereo);

    let mut system = AppSource::system_audio();
    assert_eq!(system.mode(), SourceMode::SystemAudio);
    system.set_layout(ChannelLayout::Surround71);
    assert_eq!(system.layout(), ChannelLayout::Stereo);
}

#[test]
fn routing_starts_on_demo_stereo() {
    let routing = SourceRouting::new();
    assert_eq!(routing.mode(), SourceMode::Demo);
    assert_eq!(routing.layout(), ChannelLayout::Stereo);
    assert_eq!(routing.pipeline_layout(), ChannelLayout::Stereo);
    assert_eq!(
        routing.source(),
        AppSource::Demo {
            layout: ChannelLayout::Stereo
        }
    );
}

#[test]
fn demo_follows_picked_layout() {
    let mut routing = SourceRouting::new();
    routing.set_layout(ChannelLayout::Surround71);
    assert_eq!(routing.layout(), ChannelLayout::Surround71);
    assert_eq!(routing.pipeline_layout(), ChannelLayout::Surround71);
}

#[test]
fn system_audio_is_stereo_and_demo_keeps_layout() {
    let mut routing = SourceRouting::new();
    routing.set_layout(ChannelLayout::Surround71);
    let started = routing.set_source_mode(SourceMode::SystemAudio);
    assert_eq!(started, AppSource::SystemAudio);
    assert_eq!(routing.layout(), ChannelLayout::Stereo);
    assert_eq!(routing.pipeline_layout(), ChannelLayout::Stereo);

    let started = routing.set_source_mode(SourceMode::Demo);
    assert_eq!(
        started,
        AppSource::Demo {
            layout: ChannelLayout::Stereo
        }
    );
    assert_eq!(routing.pipeline_layout(), ChannelLayout::Stereo);
}

#[test]
fn switching_back_to_demo_keeps_surround() {
    let mut routing = SourceRouting::new();
    routing.set_layout(ChannelLayout::Surround71);
    let started = routing.set_source_mode(SourceMode::Demo);
    assert_eq!(
        started,
        AppSource::Demo {
            layout: ChannelLayout::Surround71
        }
    );
    assert_eq!(routing.pipeline_layout(), ChannelLayout::Surround71);
}

#[test]
fn picking_a_layout_under_system_audio_only_moves_the_pipeline() {
    let mut routing = SourceRouting::new();
    routing.set_source_mode(SourceMode::SystemAudio);
    routing.set_layout(ChannelLayout::Surround71);
    assert_eq!(routing.layout(), ChannelLayout::Stereo);
    assert_eq!(routing.pipeline_layout(), ChannelLayout::Surround71);
    routing.set_source_mode(SourceMode::SystemAudio);
    assert_eq!(routing.pipeline_layout(), ChannelLayout::Stereo);
}
