use vstd::prelude::*;

verus! {

/// Identifier of a style, unique across all loaded voice models.
pub type StyleId = u32;

/// Version string of a speaker.
pub type StyleVersion = String;

/// Metadata of one style of a speaker.
#[derive(Debug)]
pub struct StyleMeta {
    id: StyleId,
    name: String,
}

/// What a `StyleMeta` holds, as plain values.
pub struct StyleMetaView {
    pub id: StyleId,
    pub name: Seq<char>,
}

impl View for StyleMeta {
    type V = StyleMetaView;

    closed spec fn view(&self) -> StyleMetaView {
        StyleMetaView { id: self.id, name: self.name@ }
    }
}

impl Clone for StyleMeta {
    fn clone(&self) -> (r: Self)
        ensures
            r == *self,
    {
        StyleMeta { id: self.id, name: self.name.clone() }
    }
}

impl StyleMeta {
    /// Builds the metadata of a style.
    pub fn new(id: StyleId, name: String) -> (r: StyleMeta)
        ensures
            r@ == (StyleMetaView { id, name: name@ }),
    {
        StyleMeta { id, name }
    }

    /// The style's identifier.
    pub fn id(&self) -> (r: StyleId)
        ensures
            r == self@.id,
    {
        self.id
    }

    /// The style's name.
    pub fn name(&self) -> (r: &str)
        ensures
            r@ == self@.name,
    {
        self.name.as_str()
    }
}

/// Metadata of one speaker: its name, its styles in order, its version and
/// its UUID.
#[derive(Debug)]
pub struct SpeakerMeta {
    name: String,
    styles: Vec<StyleMeta>,
    version: StyleVersion,
    speaker_uuid: String,
}

/// What a `SpeakerMeta` holds, as plain values.
pub struct SpeakerMetaView {
    pub name: Seq<char>,
    pub styles: Seq<StyleMetaView>,
    pub version: Seq<char>,
    pub speaker_uuid: Seq<char>,
}

/// The views of a sequence of style records.
pub open spec fn style_views(s: Seq<StyleMeta>) -> Seq<StyleMetaView> {
    s.map_values(|m: StyleMeta| m@)
}

impl View for SpeakerMeta {
    type V = SpeakerMetaView;

    closed spec fn view(&self) -> SpeakerMetaView {
        SpeakerMetaView {
            name: self.name@,
            styles: style_views(self.styles@),
            version: self.version@,
            speaker_uuid: self.speaker_uuid@,
        }
    }
}

impl Clone for SpeakerMeta {
    fn clone(&self) -> (r: Self)
        ensures
            r@ == self@,
    {
        let styles = self.styles.clone();
        proof {
            assert(styles@ =~= self.styles@);
            assert(style_views(styles@) =~= style_views(self.styles@));
        }
        SpeakerMeta {
            name: self.name.clone(),
            styles,
            version: self.version.clone(),
            speaker_uuid: self.speaker_uuid.clone(),
        }
    }
}

impl SpeakerMeta {
    /// Builds the metadata of a speaker.
    pub fn new(name: String, styles: Vec<StyleMeta>, version: StyleVersion, speaker_uuid: String) -> (r: SpeakerMeta)
        ensures
            r@ == (SpeakerMetaView {
                name: name@,
                styles: style_views(styles@),
                version: version@,
                speaker_uuid: speaker_uuid@,
            }),
    {
        SpeakerMeta { name, styles, version, speaker_uuid }
    }

    /// The speaker's name.
    pub fn name(&self) -> (r: &str)
        ensures
            r@ == self@.name,
    {
        self.name.as_str()
    }

    /// The speaker's styles, in order.
    pub fn styles(&self) -> (r: &[StyleMeta])
        ensures
            style_views(r@) == self@.styles,
    {
        self.styles.as_slice()
    }

    /// The speaker's version.
    pub fn version(&self) -> (r: &StyleVersion)
        ensures
            r@ == self@.version,
    {
        &self.version
    }

    /// The speaker's UUID.
    pub fn speaker_uuid(&self) -> (r: &str)
        ensures
            r@ == self@.speaker_uuid,
    {
        self.speaker_uuid.as_str()
    }
}

} // verus!
