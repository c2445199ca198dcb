//! Cameras and the frames that they deliver.

use vstd::prelude::*;

verus! {

/// A camera as shown to the user.
#[derive(Debug, PartialEq, Eq)]
pub struct CameraDevice {
    pub index: u32,
    pub name: String,
    pub is_default: bool,
}

pub ghost struct CameraDeviceView {
    pub index: u32,
    pub name: Seq<char>,
    pub is_default: bool,
}

impl View for CameraDevice {
    type V = CameraDeviceView;

    open spec fn view(&self) -> CameraDeviceView {
        CameraDeviceView {
            index: self.index,
            name: self.name@,
            is_default: self.is_default,
        }
    }
}

impl Clone for CameraDevice {
    fn clone(&self) -> (r: Self)
        ensures
            r@ == self@,
    {
        CameraDevice {
            index: self.index,
            name: self.name.clone(),
            is_default: self.is_default,
        }
    }
}

/// One frame of video or of the screen: its JPEG bytes and its size in
/// pixels.
#[derive(Debug, PartialEq, Eq)]
pub struct VideoFrame {
    pub jpeg_data: Vec<u8>,
    pub width: u32,
    pub height: u32,
}

pub ghost struct VideoFrameView {
    pub jpeg_data: Seq<u8>,
    pub width: u32,
    pub height: u32,
}

impl View for VideoFrame {
    type V = VideoFrameView;

    open spec fn view(&self) -> VideoFrameView {
        VideoFrameView {
            jpeg_data: self.jpeg_data@,
            width: self.width,
            height: self.height,
        }
    }
}

impl Clone for VideoFrame {
    fn clone(&self) -> (r: Self)
        ensures
            r@ == self@,
    {
        VideoFrame {
            jpeg_data: self.jpeg_data.clone(),
            width: self.width,
            height: self.height,
        }
    }
}

/// The width that the camera is asked for.
pub const CAMERA_WIDTH: u32 = 640;

/// The height that the camera is asked for.
pub const CAMERA_HEIGHT: u32 = 480;

/// The frames per second that the camera is asked for.
pub const CAMERA_FPS: u32 = 15;

/// The camera that is opened where the user chose `device_index`: the one
/// chosen, or the first.
pub fn camera_index(device_index: Option<u32>) -> (index: u32)
    ensures
        index == (match device_index {
            Some(i) => i,
            None => 0,
        }),
{
    match device_index {
        Some(i) => i,
        None => 0,
    }
}

} // verus!
