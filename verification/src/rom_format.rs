//! The capability bit-set describing what a ROM image is, and the
//! external compression tool that applies to it.
//!
//! A `RomFormat` combines container-format bits (what kind of file it is)
//! with platform bits (which consoles such a file can hold). The two axes
//! are independent masks combined by bitwise or; a file may carry several
//! platform bits until the caller narrows them to its chosen target.

use vstd::prelude::*;
use vstd::string::*;

verus! {

/// Raw binary disc image, only meaningful next to a cue sheet.
pub const BIN: u16 = 0b1;

/// Plain ISO disc image.
pub const ISO: u16 = 0b10;

/// Nintendo 64 cartridge image, native byte order.
pub const N64: u16 = 0b100;

/// Nintendo 64 cartridge image, byte-swapped variant.
pub const V64: u16 = 0b1000;

/// Nintendo 64 cartridge image, big-endian canonical variant.
pub const Z64: u16 = 0b10000;

/// Nintendo DS cartridge image.
pub const NDS: u16 = 0b100000;

/// Mask covering every container-format bit.
pub const FILE_FORMATS: u16 = 0b11111111;

/// Sony PlayStation platform bit.
pub const PLAYSTATION_X: u16 = 0b100000000;

/// Sony PlayStation 2 platform bit.
pub const PLAYSTATION_2: u16 = 0b1000000000;

/// Sony PlayStation Portable platform bit.
pub const PLAYSTATION_PORTABLE: u16 = 0b10000000000;

/// Nintendo 64 platform bit.
pub const NINTENDO_64: u16 = 0b100000000000;

/// Nintendo DS platform bit.
pub const NINTENDO_DS: u16 = 0b1000000000000;

/// Nintendo Wii platform bit.
pub const NINTENDO_WII: u16 = 0b10000000000000;

/// A fixed-width named-flag set of container and platform bits.
#[derive(Clone, Copy, Debug, PartialEq, Eq, Structural)]
pub struct RomFormat {
    pub bits: u16,
}

impl RomFormat {
    /// Every bit of `mask` is set in `self`.
    pub open spec fn spec_has(&self, mask: u16) -> bool {
        self.bits & mask == mask
    }

    /// Build a format from raw bits.
    pub fn from_bits(bits: u16) -> (r: RomFormat)
        ensures
            r.bits == bits,
    {
        RomFormat { bits }
    }

    /// Every bit of `mask` is set in `self`.
    #[verifier::when_used_as_spec(spec_has)]
    pub fn has(&self, mask: u16) -> (r: bool)
        ensures
            r == self.spec_has(mask),
    {
        self.bits & mask == mask
    }

    /// Every bit of `other` is set in `self`.
    pub fn contains(&self, other: RomFormat) -> (r: bool)
        ensures
            r == self.spec_has(other.bits),
    {
        self.bits & other.bits == other.bits
    }

    /// The union of the two flag sets.
    pub fn union(self, other: RomFormat) -> (r: RomFormat)
        ensures
            r.bits == self.bits | other.bits,
    {
        RomFormat { bits: self.bits | other.bits }
    }

    /// The intersection of the two flag sets.
    pub fn intersect(self, other: RomFormat) -> (r: RomFormat)
        ensures
            r.bits == self.bits & other.bits,
    {
        RomFormat { bits: self.bits & other.bits }
    }

    /// Narrow a classification to the user's chosen platform: keep the
    /// container-format bits, drop every platform bit the classifier
    /// offered, and set `target` instead.
    pub fn narrow(self, target: u16) -> (r: RomFormat)
        ensures
            r.bits == (self.bits & FILE_FORMATS) | target,
    {
        RomFormat { bits: (self.bits & FILE_FORMATS) | target }
    }

    /// The format's outcome is wrapped into a plain archive rather than a
    /// dedicated disc container: true for the cartridge families.
    pub open spec fn spec_zip(&self) -> bool {
        self.spec_has(NINTENDO_64) || self.spec_has(NINTENDO_DS)
    }

    /// The format's outcome is wrapped into a plain archive rather than a
    /// dedicated disc container: true for the cartridge families.
    #[verifier::when_used_as_spec(spec_zip)]
    pub fn zip(&self) -> (r: bool)
        ensures
            r == (self.spec_has(NINTENDO_64) || self.spec_has(NINTENDO_DS)),
    {
        self.has(NINTENDO_64) || self.has(NINTENDO_DS)
    }

    /// Which external tool converts this format, by fixed precedence:
    /// the PlayStation pair first, then PSP, then Nintendo 64 (skipped
    /// when already in the canonical big-endian variant, which needs no
    /// tool), then Nintendo DS, then Wii. Platform bits are not mutually
    /// exclusive, so this ordering is part of the policy.
    pub fn compression_tool(&self) -> (r: Option<CompressionTool>)
        ensures
            r == spec_compression_tool(*self),
    {
        if self.has(PLAYSTATION_X) || self.has(PLAYSTATION_2) {
            Some(CompressionTool::Chdman)
        } else if self.has(PLAYSTATION_PORTABLE) {
            Some(CompressionTool::MaxCSO)
        } else if self.has(NINTENDO_64) && !self.has(Z64) {
            Some(CompressionTool::Rom64)
        } else if self.has(NINTENDO_DS) {
            Some(CompressionTool::BitButcher)
        } else if self.has(NINTENDO_WII) {
            Some(CompressionTool::DolphinTool)
        } else {
            None
        }
    }
}

/// The tool resolution policy of [`RomFormat::compression_tool`].
pub open spec fn spec_compression_tool(f: RomFormat) -> Option<CompressionTool> {
    if f.spec_has(PLAYSTATION_X) || f.spec_has(PLAYSTATION_2) {
        Some(CompressionTool::Chdman)
    } else if f.spec_has(PLAYSTATION_PORTABLE) {
        Some(CompressionTool::MaxCSO)
    } else if f.spec_has(NINTENDO_64) && !f.spec_has(Z64) {
        Some(CompressionTool::Rom64)
    } else if f.spec_has(NINTENDO_DS) {
        Some(CompressionTool::BitButcher)
    } else if f.spec_has(NINTENDO_WII) {
        Some(CompressionTool::DolphinTool)
    } else {
        None
    }
}

/// The external command-line programs this library knows how to drive.
#[derive(Clone, Copy, Debug, PartialEq, Eq, Structural)]
pub enum CompressionTool {
    BitButcher,
    Chdman,
    DolphinTool,
    MaxCSO,
    Rom64,
}

/// One external program invocation: the program name and its arguments,
/// ready to be handed to a process spawner.
pub struct ToolInvocation {
    pub program: String,
    pub args: Vec<String>,
}

/// The exact command line each tool is invoked with.
pub open spec fn spec_build(
    t: CompressionTool,
    input: Seq<char>,
    output: Seq<char>,
) -> (Seq<char>, Seq<Seq<char>>) {
    match t {
        CompressionTool::BitButcher => ("BitButcher"@, seq!["-e"@, input]),
        CompressionTool::Chdman => (
            "chdman"@,
            seq!["createcd"@, "-i"@, input, "-o"@, output],
        ),
        CompressionTool::DolphinTool => (
            "dolphin-tool"@,
            seq![
                "convert"@,
                "-b"@,
                "131072"@,
                "-c"@,
                "zstd"@,
                "-f"@,
                "rvz"@,
                "-i"@,
                input,
                "-l"@,
                "5"@,
                "-o"@,
                output,
            ],
        ),
        CompressionTool::MaxCSO => ("maxcso"@, seq![input]),
        CompressionTool::Rom64 => ("rom64"@, seq!["convert"@, input]),
    }
}

impl CompressionTool {
    /// The command line that runs this tool on `input`, writing `output`
    /// where the tool takes an explicit output argument.
    pub fn build(&self, input: &String, output: &String) -> (r: ToolInvocation)
        ensures
            r.program@ == spec_build(*self, input@, output@).0,
            r.args.deep_view() == spec_build(*self, input@, output@).1,
    {
        match self {
            CompressionTool::BitButcher => {
                let r = ToolInvocation {
                    program: String::from_str("BitButcher"),
                    args: vec![String::from_str("-e"), input.clone()],
                };
                proof {
                    assert(r.args.deep_view() =~= spec_build(*self, input@, output@).1);
                }
                r
            },
            CompressionTool::Chdman => {
                let r = ToolInvocation {
                    program: String::from_str("chdman"),
                    args: vec![
                        String::from_str("createcd"),
                        String::from_str("-i"),
                        input.clone(),
                        String::from_str("-o"),
                        output.clone(),
                    ],
                };
                proof {
                    assert(r.args.deep_view() =~= spec_build(*self, input@, output@).1);
                }
                r
            },
            CompressionTool::DolphinTool => {
                let r = ToolInvocation {
                    program: String::from_str("dolphin-tool"),
                    args: vec![
                        String::from_str("convert"),
                        String::from_str("-b"),
                        String::from_str("131072"),
                        String::from_str("-c"),
                        String::from_str("zstd"),
                        String::from_str("-f"),
                        String::from_str("rvz"),
                        String::from_str("-i"),
                        input.clone(),
                        String::from_str("-l"),
                        String::from_str("5"),
                        String::from_str("-o"),
                        output.clone(),
                    ],
                };
                proof {
                    assert(r.args.deep_view() =~= spec_build(*self, input@, output@).1);
                }
                r
            },
            CompressionTool::MaxCSO => {
                let r = ToolInvocation {
                    program: String::from_str("maxcso"),
                    args: vec![input.clone()],
                };
                proof {
                    assert(r.args.deep_view() =~= spec_build(*self, input@, output@).1);
                }
                r
            },
            CompressionTool::Rom64 => {
                let r = ToolInvocation {
                    program: String::from_str("rom64"),
                    args: vec![String::from_str("convert"), input.clone()],
                };
                proof {
                    assert(r.args.deep_view() =~= spec_build(*self, input@, output@).1);
                }
                r
            },
        }
    }
}

} // verus!
