use vstd::prelude::*;

use crate::types::ChannelLayout;

verus! {

/// Which kind of audio source feeds the radar.
#[derive(Debug, Clone, Copy, PartialEq, Eq, Structural)]
pub enum SourceMode {
    Demo,
    SystemAudio,
}

impl SourceMode {
    /// The text shown for the mode.
    pub open spec fn label_text(self) -> Seq<char> {
        match self {
            SourceMode::Demo => "Demo"@,
            SourceMode::SystemAudio => "System Audio"@,
        }
    }

    pub fn label(self) -> (text: &'static str)
        ensures
            text@ == self.label_text(),
    {
        match self {
            SourceMode::Demo => "Demo",
            SourceMode::SystemAudio => "System Audio",
        }
    }

    /// Whether the source decides the channel layout, so that the user cannot pick one.
    pub fn locks_layout(self) -> (locked: bool)
        ensures
            locked == (self == SourceMode::SystemAudio),
    {
        match self {
            SourceMode::Demo => false,
            SourceMode::SystemAudio => true,
        }
    }
}

/// The audio source in use, with the layout it delivers: the demo source follows the
/// layout it was given, system audio capture always delivers stereo.
#[derive(Debug, Clone, Copy, PartialEq, Eq, Structural)]
pub enum AppSource {
    Demo { layout: ChannelLayout },
    SystemAudio,
}

impl AppSource {
    pub open spec fn spec_mode(self) -> SourceMode {
        match self {
            AppSource::Demo { .. } => SourceMode::Demo,
            AppSource::SystemAudio => SourceMode::SystemAudio,
        }
    }

    pub open spec fn spec_layout(self) -> ChannelLayout {
        match self {
            AppSource::Demo { layout } => layout,
            AppSource::SystemAudio => ChannelLayout::Stereo,
        }
    }

    /// The source after a request to deliver `layout`: only the demo source follows it.
    pub open spec fn with_layout(self, layout: ChannelLayout) -> AppSource {
        match self {
            AppSource::Demo { .. } => AppSource::Demo { layout },
            AppSource::SystemAudio => AppSource::SystemAudio,
        }
    }

    /// The source started when `mode` is picked while `self` is in use.
    pub open spec fn after_mode(self, mode: SourceMode) -> AppSource {
        match mode {
            SourceMode::Demo => AppSource::Demo { layout: self.spec_layout() },
            SourceMode::SystemAudio => AppSource::SystemAudio,
        }
    }

    pub fn demo(layout: ChannelLayout) -> (source: AppSource)
        ensures
            source == (AppSource::Demo { layout }),
    {
        AppSource::Demo { layout }
    }

    pub fn system_audio() -> (source: AppSource)
        ensures
            source == AppSource::SystemAudio,
    {
        AppSource::SystemAudio
    }

    pub fn mode(&self) -> (mode: SourceMode)
        ensures
            mode == self.spec_mode(),
    {
        match self {
            AppSource::Demo { .. } => SourceMode::Demo,
            AppSource::SystemAudio => SourceMode::SystemAudio,
        }
    }

    pub fn layout(&self) -> (layout: ChannelLayout)
        ensures
            layout == self.spec_layout(),
    {
        match self {
            AppSource::Demo { layout } => *layout,
            AppSource::SystemAudio => ChannelLayout::Stereo,
        }
    }

    pub fn set_layout(&mut self, layout: ChannelLayout)
        ensures
            *final(self) == old(self).with_layout(layout),
    {
        if let AppSource::Demo { .. } = self {
            *self = AppSource::Demo { layout };
        }
    }
}

/// Which source feeds the radar and which layout the processing pipeline expects.
pub struct SourceRouting {
    source: AppSource,
    pipeline_layout: ChannelLayout,
}

impl SourceRouting {
    pub closed spec fn spec_source(&self) -> AppSource {
        self.source
    }

    pub closed spec fn spec_pipeline_layout(&self) -> ChannelLayout {
        self.pipeline_layout
    }

    /// The pipeline expects the layout the source delivers.
    pub open spec fn aligned(&self) -> bool {
        self.spec_pipeline_layout() == self.spec_source().spec_layout()
    }

    /// The demo source on a stereo layout, as the radar starts.
    pub fn new() -> (routing: SourceRouting)
        ensures
            routing.spec_source() == (AppSource::Demo { layout: ChannelLayout::Stereo }),
            routing.spec_pipeline_layout() == ChannelLayout::Stereo,
            routing.aligned(),
    {
        let layout = ChannelLayout::Stereo;
        SourceRouting { source: AppSource::demo(layout), pipeline_layout: layout }
    }

    pub fn source(&self) -> (source: AppSource)
        ensures
            source == self.spec_source(),
    {
        self.source
    }

    pub fn mode(&self) -> (mode: SourceMode)
        ensures
            mode == self.spec_source().spec_mode(),
    {
        self.source.mode()
    }

    /// The layout the source delivers.
    pub fn layout(&self) -> (layout: ChannelLayout)
        ensures
            layout == self.spec_source().spec_layout(),
    {
        self.source.layout()
    }

    pub fn pipeline_layout(&self) -> (layout: ChannelLayout)
        ensures
            layout == self.spec_pipeline_layout(),
    {
        self.pipeline_layout
    }

    /// A layout picked by the user: the demo source follows it, system audio keeps
    /// stereo, and the pipeline is set to the picked layout in either case.
    pub fn set_layout(&mut self, layout: ChannelLayout)
        ensures
            final(self).spec_source() == old(self).spec_source().with_layout(layout),
            final(self).spec_pipeline_layout() == layout,
            final(self).aligned() <==> (old(self).spec_source().spec_mode() == SourceMode::Demo
                || layout == ChannelLayout::Stereo),
    {
        proof {
            lemma_layout_pick_alignment(self.source, layout);
        }
        self.source.set_layout(layout);
        self.pipeline_layout = layout;
    }

    /// A source mode picked by the user: a new source of that mode is started (a demo
    /// source keeps the current layout, system audio delivers stereo) and the
    /// pipeline is set to the new source's layout. Returns the source to start.
    pub fn set_source_mode(&mut self, mode: SourceMode) -> (started: AppSource)
        ensures
            started == old(self).spec_source().after_mode(mode),
            final(self).spec_source() == started,
            final(self).spec_pipeline_layout() == started.spec_layout(),
            final(self).aligned(),
    {
        let current_layout = self.source.layout();
        self.source = match mode {
            SourceMode::Demo => AppSource::demo(current_layout),
            SourceMode::SystemAudio => AppSource::system_audio(),
        };
        self.pipeline_layout = self.source.layout();
        self.source
    }
}

/// Picking a source mode gives a source of that mode; system audio delivers stereo,
/// and the demo source keeps the layout that was in use before the switch.
pub proof fn lemma_mode_switch(source: AppSource, mode: SourceMode)
    ensures
        source.after_mode(mode).spec_mode() == mode,
        mode == SourceMode::SystemAudio ==> source.after_mode(mode).spec_layout()
            == ChannelLayout::Stereo,
        mode == SourceMode::Demo ==> source.after_mode(mode).spec_layout() == source.spec_layout(),
{
}

/// After a layout is picked the pipeline (which takes the picked layout) still expects
/// what the source delivers exactly when the source is the demo source or the picked
/// layout is stereo: system audio stays stereo whatever is picked.
pub proof fn lemma_layout_pick_alignment(source: AppSource, layout: ChannelLayout)
    ensures
        (source.with_layout(layout).spec_layout() == layout) <==> (source.spec_mode()
            == SourceMode::Demo || layout == ChannelLayout::Stereo),
        source.with_layout(layout).spec_mode() == source.spec_mode(),
{
}

/// A mode that fixes the layout is one whose sources all deliver stereo.
pub proof fn lemma_locked_layout_is_stereo(source: AppSource)
    ensures
        source.spec_mode() == SourceMode::SystemAudio ==> source.spec_layout()
            == ChannelLayout::Stereo,
{
}

} // verus!
