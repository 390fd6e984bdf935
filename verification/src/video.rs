//! The Video entity page's state: metadata only (video playback is not
//! supported).
use vstd::prelude::*;

use crate::actions::ScreenEffect;
use crate::album::{err_text, one, only_images};
use crate::favorites::{image_list, Item};
use crate::format::opt_chars;
use crate::nav::EntityRef;

verus! {

pub struct State<V> {
    pub video_id: u64,
    pub video: Option<Item<V>>,
    pub loading: bool,
    pub error: Option<String>,
}

pub struct VideoView<V> {
    pub video_id: u64,
    pub video: Option<Item<V>>,
    pub loading: bool,
    pub error: Option<Seq<char>>,
}

impl<V> View for State<V> {
    type V = VideoView<V>;

    open spec fn view(&self) -> VideoView<V> {
        VideoView {
            video_id: self.video_id,
            video: self.video,
            loading: self.loading,
            error: opt_chars(self.error),
        }
    }
}

#[derive(Debug)]
pub enum Message<V> {
    Loaded(Result<Item<V>, String>),
    Navigate(EntityRef),
}

impl<V> State<V> {
    pub fn new(video_id: u64) -> (r: State<V>)
        ensures
            r@ == (VideoView::<V> { video_id, video: None, loading: true, error: None }),
    {
        State { video_id, video: None, loading: true, error: None }
    }

    pub fn video_id(&self) -> (r: u64)
        ensures
            r == self.video_id,
    {
        self.video_id
    }

    pub fn update(&mut self, message: Message<V>) -> (r: Vec<ScreenEffect>)
        ensures
            match message {
                Message::Loaded(Ok(video)) => final(self)@ == (VideoView {
                    video: Some(video),
                    loading: false,
                    error: None,
                    ..old(self)@
                }) && only_images(r@, match opt_chars(video.image) {
                    Some(s) => seq![s],
                    None => Seq::empty(),
                }),
                Message::Loaded(Err(e)) => final(self)@ == (VideoView {
                    loading: false,
                    error: err_text(e),
                    ..old(self)@
                }) && r@.len() == 0,
                Message::Navigate(entity) => final(self)@ == old(self)@ && r@.len() == 1 && (
                r@[0] matches ScreenEffect::Navigate(e) && e@ == entity@),
            },
    {
        match message {
            Message::Loaded(Ok(video)) => {
                let images = image_list(&video.image);
                self.video = Some(video);
                self.loading = false;
                self.error = None;
                one(ScreenEffect::ImagesNeeded(images))
            },
            Message::Loaded(Err(e)) => {
                self.loading = false;
                self.error = Some(e);
                Vec::new()
            },
            Message::Navigate(entity) => one(ScreenEffect::Navigate(entity)),
        }
    }
}

} // verus!
