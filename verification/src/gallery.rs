//! The gallery page: its fixed image collection and the page-owned
//! viewer session (which image is selected and whether the modal
//! viewer is open). The gallery always navigates circularly.

use vstd::prelude::*;
use vstd::string::*;

use crate::image_viewer::{next_index, prev_index, ImageDescription};

verus! {

/// How many images the gallery holds.
pub open spec fn spec_gallery_len() -> int {
    13
}

/// The file name of the gallery image at position `j`.
pub open spec fn spec_gallery_name(j: int) -> Seq<char> {
    if j == 0 {
        "gallery-1.jpg"@
    } else if j == 1 {
        "gallery-2.jpg"@
    } else if j == 2 {
        "gallery-3.jpg"@
    } else if j == 3 {
        "gallery-4.jpg"@
    } else if j == 4 {
        "gallery-5.jpg"@
    } else if j == 5 {
        "gallery-6.jpg"@
    } else if j == 6 {
        "gallery-7.jpg"@
    } else if j == 7 {
        "gallery-8.jpg"@
    } else if j == 8 {
        "gallery-9.png"@
    } else if j == 9 {
        "gallery-10.jpg"@
    } else if j == 10 {
        "gallery-11.jpg"@
    } else if j == 11 {
        "gallery-12.jpg"@
    } else {
        "gallery-13.jpg"@
    }
}

/// Builds the gallery's image sequence; each image carries its own file
/// name as caption.
pub fn gallery_images() -> (v: Vec<ImageDescription>)
    ensures
        v@.len() == spec_gallery_len(),
        forall|j: int|
            0 <= j < spec_gallery_len() ==> (#[trigger] v@[j].link)@ == spec_gallery_name(j),
        forall|j: int|
            0 <= j < spec_gallery_len() ==> ((#[trigger] v@[j].description) matches Some(d)
                && d@ == spec_gallery_name(j)),
{
    let mut v: Vec<ImageDescription> = Vec::new();
    v.push(ImageDescription::new(String::from_str("gallery-1.jpg"), "gallery-1.jpg"));
    v.push(ImageDescription::new(String::from_str("gallery-2.jpg"), "gallery-2.jpg"));
    v.push(ImageDescription::new(String::from_str("gallery-3.jpg"), "gallery-3.jpg"));
    v.push(ImageDescription::new(String::from_str("gallery-4.jpg"), "gallery-4.jpg"));
    v.push(ImageDescription::new(String::from_str("gallery-5.jpg"), "gallery-5.jpg"));
    v.push(ImageDescription::new(String::from_str("gallery-6.jpg"), "gallery-6.jpg"));
    v.push(ImageDescription::new(String::from_str("gallery-7.jpg"), "gallery-7.jpg"));
    v.push(ImageDescription::new(String::from_str("gallery-8.jpg"), "gallery-8.jpg"));
    v.push(ImageDescription::new(String::from_str("gallery-9.png"), "gallery-9.png"));
    v.push(ImageDescription::new(String::from_str("gallery-10.jpg"), "gallery-10.jpg"));
    v.push(ImageDescription::new(String::from_str("gallery-11.jpg"), "gallery-11.jpg"));
    v.push(ImageDescription::new(String::from_str("gallery-12.jpg"), "gallery-12.jpg"));
    v.push(ImageDescription::new(String::from_str("gallery-13.jpg"), "gallery-13.jpg"));
    v
}

/// The gallery page's viewer session: the selected image and whether
/// the modal viewer is open.
#[derive(Structural, PartialEq, Eq, Clone, Copy, Debug)]
pub struct GalleryState {
    pub is_open: bool,
    pub selected_image: usize,
}

impl GalleryState {
    /// The selection stays inside the image sequence; with no images it
    /// rests at the initial position.
    pub open spec fn inv(&self, n: int) -> bool {
        if n == 0 {
            self.selected_image == 0
        } else {
            self.selected_image < n
        }
    }

    /// A fresh gallery page: viewer closed, first image selected.
    pub fn new() -> (s: GalleryState)
        ensures
            !s.is_open,
            s.selected_image == 0,
    {
        GalleryState { is_open: false, selected_image: 0 }
    }

    /// A click on a gallery entry opens the viewer at that image.
    pub fn open_at(&mut self, index: usize, num_images: usize)
        requires
            index < num_images,
        ensures
            final(self).inv(num_images as int),
            final(self).is_open,
            final(self).selected_image == index,
    {
        self.selected_image = index;
        self.is_open = true;
    }

    /// Dismissing the viewer closes it and keeps the selection.
    pub fn close(&mut self)
        ensures
            !final(self).is_open,
            final(self).selected_image == old(self).selected_image,
    {
        self.is_open = false;
    }

    /// Selects the next image, wrapping around the end.
    pub fn select_next(&mut self, num_images: usize)
        requires
            old(self).inv(num_images as int),
            num_images > 0,
        ensures
            final(self).inv(num_images as int),
            final(self).selected_image == next_index(
                old(self).selected_image as int,
                num_images as int,
                true,
            ),
            final(self).is_open == old(self).is_open,
    {
        if self.selected_image == num_images - 1 {
            self.selected_image = 0;
        } else {
            self.selected_image = self.selected_image + 1;
        }
    }

    /// Selects the previous image, wrapping around the start.
    pub fn select_prev(&mut self, num_images: usize)
        requires
            old(self).inv(num_images as int),
            num_images > 0,
        ensures
            final(self).inv(num_images as int),
            final(self).selected_image == prev_index(
                old(self).selected_image as int,
                num_images as int,
                true,
            ),
            final(self).is_open == old(self).is_open,
    {
        if self.selected_image == 0 {
            self.selected_image = num_images - 1;
        } else {
            self.selected_image = self.selected_image - 1;
        }
    }
}

} // verus!
