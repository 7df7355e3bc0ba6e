use crate::image::{rotate_image_90_ccw, rotated_ccw, RgbaImage};
use vstd::prelude::*;

verus! {

/// The bullet sprite, turned to point along the ship's nose.
pub struct BulletImage(pub RgbaImage);

/// How far the one-time preparation of the bullet sprite has come.
#[derive(Clone, Copy, Debug, PartialEq, Eq, Structural)]
pub enum BulletLoad {
    /// The sprite file has not been asked for.
    NotRequested,
    /// The sprite file is loading.
    Requested,
    /// The turned sprite has been handed out.
    Done,
}

/// What the engine should do for the bullet sprite this frame.
pub enum BulletLoadAction {
    /// Start loading the sprite file.
    RequestLoad,
    /// Nothing yet, or nothing any more.
    Wait,
    /// Store this turned sprite as the bullet image.
    Publish(BulletImage),
}

/// One frame of the bullet-sprite preparation: the first call asks for the
/// file; once `loaded` holds the decoded sprite it is turned a quarter turn
/// counter-clockwise and handed out, exactly once.
pub fn rotate_bullet_on_startup(stage: &mut BulletLoad, loaded: Option<&RgbaImage>) -> (action:
    BulletLoadAction)
    requires
        loaded matches Some(img) ==> img.wf(),
    ensures
        *old(stage) == BulletLoad::NotRequested ==> action is RequestLoad && *final(stage)
            == BulletLoad::Requested,
        *old(stage) == BulletLoad::Done ==> action is Wait && *final(stage) == BulletLoad::Done,
        *old(stage) == BulletLoad::Requested && loaded is None ==> action is Wait && *final(stage)
            == BulletLoad::Requested,
        *old(stage) == BulletLoad::Requested ==> (loaded matches Some(img) ==> *final(stage)
            == BulletLoad::Done),
        *old(stage) == BulletLoad::Requested ==> (loaded matches Some(img) ==> (
        action matches BulletLoadAction::Publish(b) ==> {
            &&& b.0.wf()
            &&& b.0.width == img.height
            &&& b.0.height == img.width
            &&& b.0.data@ == rotated_ccw(img.data@, img.width as nat, img.height as nat)
        })),
        *old(stage) == BulletLoad::Requested ==> (loaded is Some <==> action is Publish),
{
    match *stage {
        BulletLoad::Done => BulletLoadAction::Wait,
        BulletLoad::NotRequested => {
            *stage = BulletLoad::Requested;
            BulletLoadAction::RequestLoad
        },
        BulletLoad::Requested => match loaded {
            Some(img) => {
                let rotated = rotate_image_90_ccw(img);
                *stage = BulletLoad::Done;
                BulletLoadAction::Publish(BulletImage(rotated))
            },
            None => BulletLoadAction::Wait,
        },
    }
}

} // verus!
