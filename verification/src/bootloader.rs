//! Bootloader configuration: the kernel, initrd and command line of a
//! bootable system image, and the boot menu entry generated from them.

use vstd::prelude::*;
use vstd::string::*;
use crate::strings::{push_str_chars, string_of};

verus! {

/// The pieces of a boot menu entry.
#[derive(Clone, Debug)]
pub struct BootloaderConfig {
    pub kernel_path: String,
    pub initrd_path: String,
    pub cmdline: String,
}

/// The boot menu entry for a configuration.
pub open spec fn spec_grub_entry(c: BootloaderConfig) -> Seq<char> {
    "menuentry \"digiOS\" {\n    linux "@ + c.kernel_path@ + " "@ + c.cmdline@ + "\n    initrd "@
        + c.initrd_path@ + "\n}"@
}

impl BootloaderConfig {
    /// The stock configuration: the system kernel and initrd, booting
    /// quietly.
    pub fn default() -> (r: Self)
        ensures
            r.kernel_path@ == "/boot/digios-kernel"@,
            r.initrd_path@ == "/boot/initrd.img"@,
            r.cmdline@ == "quiet splash"@,
    {
        BootloaderConfig {
            kernel_path: String::from_str("/boot/digios-kernel"),
            initrd_path: String::from_str("/boot/initrd.img"),
            cmdline: String::from_str("quiet splash"),
        }
    }

    /// Renders the boot menu entry.
    pub fn generate_grub_config(&self) -> (r: String)
        ensures
            r@ == spec_grub_entry(*self),
    {
        let mut out: Vec<char> = Vec::new();
        push_str_chars("menuentry \"digiOS\" {\n    linux ", &mut out);
        push_str_chars(self.kernel_path.as_str(), &mut out);
        push_str_chars(" ", &mut out);
        push_str_chars(self.cmdline.as_str(), &mut out);
        push_str_chars("\n    initrd ", &mut out);
        push_str_chars(self.initrd_path.as_str(), &mut out);
        push_str_chars("\n}", &mut out);
        proof {
            assert(out@ =~= spec_grub_entry(*self));
        }
        string_of(&out)
    }
}

} // verus!
