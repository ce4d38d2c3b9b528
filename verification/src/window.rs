//! Description of the platform window the shell opens for the runtime:
//! title, size and vsync preference.  Creating the window itself is platform
//! work and happens in the surrounding shell.
use vstd::prelude::*;
use vstd::string::StringExecFns;

verus! {

/// The properties a window is opened with.
pub struct WindowData {
    title: String,
    width: u32,
    height: u32,
    vsync: bool,
}

impl WindowData {
    pub closed spec fn spec_title(&self) -> Seq<char> {
        self.title@
    }

    pub closed spec fn spec_width(&self) -> u32 {
        self.width
    }

    pub closed spec fn spec_height(&self) -> u32 {
        self.height
    }

    pub closed spec fn spec_vsync(&self) -> bool {
        self.vsync
    }

    /// The default window description: the engine's name at 1280 x 720,
    /// with vsync on.
    pub fn default() -> (r: WindowData)
        ensures
            r.spec_title() == "Hades Engine"@,
            r.spec_width() == 1280u32,
            r.spec_height() == 720u32,
            r.spec_vsync(),
    {
        WindowData {
            title: String::from_str("Hades Engine"),
            width: Self::default_width(),
            height: Self::default_height(),
            vsync: true,
        }
    }

    pub fn default_width() -> (r: u32)
        ensures
            r == 1280u32,
    {
        1280
    }

    pub fn default_height() -> (r: u32)
        ensures
            r == 720u32,
    {
        720
    }

    pub fn get_title(&self) -> (r: &str)
        ensures
            r@ == self.spec_title(),
    {
        self.title.as_str()
    }

    pub fn get_width(&self) -> (r: u32)
        ensures
            r == self.spec_width(),
    {
        self.width
    }

    pub fn get_height(&self) -> (r: u32)
        ensures
            r == self.spec_height(),
    {
        self.height
    }

    pub fn set_vsync(&mut self, enabled: bool)
        ensures
            final(self).spec_vsync() == enabled,
            final(self).spec_title() == old(self).spec_title(),
            final(self).spec_width() == old(self).spec_width(),
            final(self).spec_height() == old(self).spec_height(),
    {
        self.vsync = enabled
    }

    pub fn is_vsync(&self) -> (r: bool)
        ensures
            r == self.spec_vsync(),
    {
        self.vsync
    }
}

} // verus!
