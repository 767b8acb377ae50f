use vstd::prelude::*;

use crate::models::{style_views, SpeakerMeta, SpeakerMetaView, StyleId};

verus! {

/// The plain values of a sequence of speaker records.
pub open spec fn meta_views(s: Seq<SpeakerMeta>) -> Seq<SpeakerMetaView> {
    s.map_values(|m: SpeakerMeta| m@)
}

/// Whether some speaker of `metas` has a style with identifier `style_id`.
pub open spec fn metas_have_style(metas: Seq<SpeakerMetaView>, style_id: StyleId) -> bool {
    exists|i: int, j: int|
        0 <= i < metas.len() && 0 <= j < metas[i].styles.len() && #[trigger] metas[i].styles[j].id
            == style_id
}

/// Whether some style identifier belongs to both models.
pub open spec fn share_style(a: VoiceModelView, b: VoiceModelView) -> bool {
    exists|style_id: StyleId| metas_have_style(a.metas, style_id) && metas_have_style(b.metas, style_id)
}

/// A voice model package: its identifier and the speakers it holds.
pub struct VoiceModel {
    id: String,
    metas: Vec<SpeakerMeta>,
}

/// What a `VoiceModel` holds, as plain values.
pub struct VoiceModelView {
    pub id: Seq<char>,
    pub metas: Seq<SpeakerMetaView>,
}

impl View for VoiceModel {
    type V = VoiceModelView;

    closed spec fn view(&self) -> VoiceModelView {
        VoiceModelView { id: self.id@, metas: meta_views(self.metas@) }
    }
}

/// A copy of a sequence of speaker records.
pub fn clone_metas(metas: &[SpeakerMeta]) -> (r: Vec<SpeakerMeta>)
    ensures
        meta_views(r@) == meta_views(metas@),
{
    let mut r: Vec<SpeakerMeta> = Vec::new();
    let mut i: usize = 0;
    while i < metas.len()
        invariant
            i <= metas@.len(),
            r@.len() == i,
            forall|k: int| 0 <= k < i ==> r@[k]@ == metas@[k]@,
        decreases metas@.len() - i,
    {
        r.push(metas[i].clone());
        i = i + 1;
    }
    proof {
        assert(meta_views(r@) =~= meta_views(metas@));
    }
    r
}

/// Whether some speaker of `metas` has the style `style_id`.
pub fn find_style(metas: &[SpeakerMeta], style_id: StyleId) -> (r: bool)
    ensures
        r == metas_have_style(meta_views(metas@), style_id),
{
    let ghost mv = meta_views(metas@);
    let mut i: usize = 0;
    while i < metas.len()
        invariant
            i <= metas@.len(),
            mv == meta_views(metas@),
            forall|a: int, b: int|
                0 <= a < i && 0 <= b < mv[a].styles.len() ==> #[trigger] mv[a].styles[b].id
                    != style_id,
        decreases metas@.len() - i,
    {
        let styles = metas[i].styles();
        let mut j: usize = 0;
        while j < styles.len()
            invariant
                i < metas@.len(),
                j <= styles@.len(),
                mv == meta_views(metas@),
                style_views(styles@) == mv[i as int].styles,
                forall|a: int, b: int|
                    0 <= a < i && 0 <= b < mv[a].styles.len() ==> #[trigger] mv[a].styles[b].id
                        != style_id,
                forall|b: int| 0 <= b < j ==> #[trigger] mv[i as int].styles[b].id != style_id,
            decreases styles@.len() - j,
        {
            if styles[j].id() == style_id {
                proof {
                    assert(mv[i as int].styles[j as int].id == style_id);
                }
                return true;
            }
            j = j + 1;
        }
        i = i + 1;
    }
    false
}

impl VoiceModel {
    /// A model with identifier `id` holding the speakers `metas`.
    pub fn new(id: String, metas: Vec<SpeakerMeta>) -> (r: VoiceModel)
        ensures
            r@ == (VoiceModelView { id: id@, metas: meta_views(metas@) }),
    {
        VoiceModel { id, metas }
    }

    /// The speakers the model holds, independent of whether it is loaded.
    pub fn metas(&self) -> (r: Vec<SpeakerMeta>)
        ensures
            meta_views(r@) == self@.metas,
    {
        clone_metas(self.metas.as_slice())
    }

    /// The model's identifier.
    pub fn id(&self) -> (r: String)
        ensures
            r@ == self@.id,
    {
        self.id.clone()
    }

    /// The speakers the model holds, borrowed.
    pub fn metas_slice(&self) -> (r: &[SpeakerMeta])
        ensures
            meta_views(r@) == self@.metas,
    {
        self.metas.as_slice()
    }

    /// Whether the two models have the same identifier.
    pub fn same_id(&self, other: &VoiceModel) -> (r: bool)
        ensures
            r == (self@.id == other@.id),
    {
        self.id == other.id
    }

    /// Whether some style identifier belongs to both models.
    pub fn shares_style_with(&self, other: &VoiceModel) -> (r: bool)
        ensures
            r == share_style(self@, other@),
    {
        let ghost mv = self@.metas;
        let mut i: usize = 0;
        while i < self.metas.len()
            invariant
                i <= self.metas@.len(),
                mv == self@.metas,
                forall|a: int, b: int|
                    0 <= a < i && 0 <= b < mv[a].styles.len() ==> !metas_have_style(
                        other@.metas,
                        #[trigger] mv[a].styles[b].id,
                    ),
            decreases self.metas@.len() - i,
        {
            let styles = self.metas[i].styles();
            let mut j: usize = 0;
            while j < styles.len()
                invariant
                    i < self.metas@.len(),
                    j <= styles@.len(),
                    mv == self@.metas,
                    style_views(styles@) == mv[i as int].styles,
                    forall|a: int, b: int|
                        0 <= a < i && 0 <= b < mv[a].styles.len() ==> !metas_have_style(
                            other@.metas,
                            #[trigger] mv[a].styles[b].id,
                        ),
                    forall|b: int|
                        0 <= b < j ==> !metas_have_style(
                            other@.metas,
                            #[trigger] mv[i as int].styles[b].id,
                        ),
                decreases styles@.len() - j,
            {
                let sid = styles[j].id();
                if other.has_style(sid) {
                    proof {
                        assert(mv[i as int].styles[j as int].id == sid);
                        assert(metas_have_style(self@.metas, sid));
                    }
                    return true;
                }
                j = j + 1;
            }
            i = i + 1;
        }
        proof {
            if share_style(self@, other@) {
                let sid = choose|sid: StyleId|
                    metas_have_style(self@.metas, sid) && metas_have_style(other@.metas, sid);
                let (a, b) = choose|a: int, b: int|
                    0 <= a < mv.len() && 0 <= b < mv[a].styles.len() && #[trigger] mv[a].styles[b].id
                        == sid;
                assert(!metas_have_style(other@.metas, mv[a].styles[b].id));
            }
        }
        false
    }

    /// Whether some speaker of the model has the style `style_id`.
    pub fn has_style(&self, style_id: StyleId) -> (r: bool)
        ensures
            r == metas_have_style(self@.metas, style_id),
    {
        find_style(self.metas.as_slice(), style_id)
    }
}

} // verus!
