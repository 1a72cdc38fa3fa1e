//! The words a target triple is made of: architectures, operating systems and
//! environments. Each vocabulary is closed; a word outside it is not a wildcard.

use crate::text::{chars_of, dash_free, join, spells};
use vstd::prelude::*;

verus! {

/// A processor architecture.
#[derive(Clone, Copy, Debug, PartialEq, Eq, Hash, Structural)]
pub enum Arch {
    I386,
    I586,
    I686,
    X86_64,
    Arm,
    Armv7,
    Armv7s,
    Aarch64,
    Mips,
    Mipsel,
    Mips64,
    Mips64el,
    Powerpc,
    Powerpc64,
    Powerpc64le,
    S390x,
}

/// An operating system, vendor included where the triple names one.
#[derive(Clone, Copy, Debug, PartialEq, Eq, Hash, Structural)]
pub enum Os {
    PcWindows,
    UnknownLinux,
    AppleDarwin,
    UnknownNetbsd,
    AppleIos,
    Linux,
    RumprunNetbsd,
    UnknownFreebsd,
}

/// An environment: the ABI or C library.
#[derive(Clone, Copy, Debug, PartialEq, Eq, Hash, Structural)]
pub enum Env {
    Gnu,
    Msvc,
    Gnueabi,
    Gnueabihf,
    Gnuabi64,
    Androideabi,
    Android,
    Musl,
}

impl Arch {
    /// How the architecture is written in a triple.
    pub open spec fn word(self) -> Seq<char> {
        match self {
            Arch::I386 => "i386"@,
            Arch::I586 => "i586"@,
            Arch::I686 => "i686"@,
            Arch::X86_64 => "x86_64"@,
            Arch::Arm => "arm"@,
            Arch::Armv7 => "armv7"@,
            Arch::Armv7s => "armv7s"@,
            Arch::Aarch64 => "aarch64"@,
            Arch::Mips => "mips"@,
            Arch::Mipsel => "mipsel"@,
            Arch::Mips64 => "mips64"@,
            Arch::Mips64el => "mips64el"@,
            Arch::Powerpc => "powerpc"@,
            Arch::Powerpc64 => "powerpc64"@,
            Arch::Powerpc64le => "powerpc64le"@,
            Arch::S390x => "s390x"@,
        }
    }

    /// How the architecture is written in a triple.
    pub fn name(self) -> (s: &'static str)
        ensures
            s@ == self.word(),
    {
        match self {
            Arch::I386 => "i386",
            Arch::I586 => "i586",
            Arch::I686 => "i686",
            Arch::X86_64 => "x86_64",
            Arch::Arm => "arm",
            Arch::Armv7 => "armv7",
            Arch::Armv7s => "armv7s",
            Arch::Aarch64 => "aarch64",
            Arch::Mips => "mips",
            Arch::Mipsel => "mipsel",
            Arch::Mips64 => "mips64",
            Arch::Mips64el => "mips64el",
            Arch::Powerpc => "powerpc",
            Arch::Powerpc64 => "powerpc64",
            Arch::Powerpc64le => "powerpc64le",
            Arch::S390x => "s390x",
        }
    }

    /// The architecture that `word` spells, if it spells one.
    pub fn from_chars(word: &Vec<char>) -> (found: Option<Arch>)
        ensures
            match found {
                Some(a) => a.word() == word@,
                None => forall|a: Arch| a.word() != word@,
            },
    {
        if spells(word, "i386") {
            Some(Arch::I386)
        } else if spells(word, "i586") {
            Some(Arch::I586)
        } else if spells(word, "i686") {
            Some(Arch::I686)
        } else if spells(word, "x86_64") {
            Some(Arch::X86_64)
        } else if spells(word, "arm") {
            Some(Arch::Arm)
        } else if spells(word, "armv7") {
            Some(Arch::Armv7)
        } else if spells(word, "armv7s") {
            Some(Arch::Armv7s)
        } else if spells(word, "aarch64") {
            Some(Arch::Aarch64)
        } else if spells(word, "mips") {
            Some(Arch::Mips)
        } else if spells(word, "mipsel") {
            Some(Arch::Mipsel)
        } else if spells(word, "mips64") {
            Some(Arch::Mips64)
        } else if spells(word, "mips64el") {
            Some(Arch::Mips64el)
        } else if spells(word, "powerpc") {
            Some(Arch::Powerpc)
        } else if spells(word, "powerpc64") {
            Some(Arch::Powerpc64)
        } else if spells(word, "powerpc64le") {
            Some(Arch::Powerpc64le)
        } else if spells(word, "s390x") {
            Some(Arch::S390x)
        } else {
            None
        }
    }

    /// The architecture that `word` names, if it names one.
    pub fn parse(word: &str) -> (found: Option<Arch>)
        ensures
            match found {
                Some(a) => a.word() == word@,
                None => forall|a: Arch| a.word() != word@,
            },
    {
        Arch::from_chars(&chars_of(word))
    }
}

impl Os {
    /// How the operating system is written in a triple.
    pub open spec fn word(self) -> Seq<char> {
        match self {
            Os::PcWindows => "pc-windows"@,
            Os::UnknownLinux => "unknown-linux"@,
            Os::AppleDarwin => "apple-darwin"@,
            Os::UnknownNetbsd => "unknown-netbsd"@,
            Os::AppleIos => "apple-ios"@,
            Os::Linux => "linux"@,
            Os::RumprunNetbsd => "rumprun-netbsd"@,
            Os::UnknownFreebsd => "unknown-freebsd"@,
        }
    }

    /// The dash-free pieces of the operating system's word: vendor and system,
    /// or the system alone.
    pub open spec fn pieces(self) -> Seq<Seq<char>> {
        match self {
            Os::PcWindows => seq!["pc"@, "windows"@],
            Os::UnknownLinux => seq!["unknown"@, "linux"@],
            Os::AppleDarwin => seq!["apple"@, "darwin"@],
            Os::UnknownNetbsd => seq!["unknown"@, "netbsd"@],
            Os::AppleIos => seq!["apple"@, "ios"@],
            Os::Linux => seq!["linux"@],
            Os::RumprunNetbsd => seq!["rumprun"@, "netbsd"@],
            Os::UnknownFreebsd => seq!["unknown"@, "freebsd"@],
        }
    }

    /// How the operating system is written in a triple.
    pub fn name(self) -> (s: &'static str)
        ensures
            s@ == self.word(),
    {
        match self {
            Os::PcWindows => "pc-windows",
            Os::UnknownLinux => "unknown-linux",
            Os::AppleDarwin => "apple-darwin",
            Os::UnknownNetbsd => "unknown-netbsd",
            Os::AppleIos => "apple-ios",
            Os::Linux => "linux",
            Os::RumprunNetbsd => "rumprun-netbsd",
            Os::UnknownFreebsd => "unknown-freebsd",
        }
    }

    /// The operating system written as the two pieces `vendor` and `system`.
    pub fn from_pair(vendor: &Vec<char>, system: &Vec<char>) -> (found: Option<Os>)
        ensures
            match found {
                Some(o) => o.pieces() == seq![vendor@, system@],
                None => forall|o: Os| o.pieces() != seq![vendor@, system@],
            },
    {
        let found = if spells(vendor, "pc") && spells(system, "windows") {
            Some(Os::PcWindows)
        } else if spells(vendor, "unknown") && spells(system, "linux") {
            Some(Os::UnknownLinux)
        } else if spells(vendor, "apple") && spells(system, "darwin") {
            Some(Os::AppleDarwin)
        } else if spells(vendor, "unknown") && spells(system, "netbsd") {
            Some(Os::UnknownNetbsd)
        } else if spells(vendor, "apple") && spells(system, "ios") {
            Some(Os::AppleIos)
        } else if spells(vendor, "rumprun") && spells(system, "netbsd") {
            Some(Os::RumprunNetbsd)
        } else if spells(vendor, "unknown") && spells(system, "freebsd") {
            Some(Os::UnknownFreebsd)
        } else {
            None
        };
        proof {
            let given = seq![vendor@, system@];
            assert(given[0] == vendor@ && given[1] == system@ && given.len() == 2);
            match found {
                Some(o) => {
                    assert(o.pieces() =~= given);
                },
                None => {
                    assert forall|o: Os| o.pieces() != given by {
                        if o.pieces() == given {
                            assert(o.pieces()[0] == vendor@);
                            assert(o.pieces()[1] == system@);
                        }
                    }
                },
            }
        }
        found
    }

    /// The operating system written as the one piece `system`.
    pub fn from_single(system: &Vec<char>) -> (found: Option<Os>)
        ensures
            match found {
                Some(o) => o.pieces() == seq![system@],
                None => forall|o: Os| o.pieces() != seq![system@],
            },
    {
        let found = if spells(system, "linux") {
            Some(Os::Linux)
        } else {
            None
        };
        proof {
            let given = seq![system@];
            assert(given[0] == system@ && given.len() == 1);
            match found {
                Some(o) => {
                    assert(o.pieces() =~= given);
                },
                None => {
                    assert forall|o: Os| o.pieces() != given by {
                        if o.pieces() == given {
                            assert(o.pieces()[0] == system@);
                        }
                    }
                },
            }
        }
        found
    }

    /// The operating system that `word` names, if it names one.
    pub fn parse(word: &str) -> (found: Option<Os>)
        ensures
            match found {
                Some(o) => o.word() == word@,
                None => forall|o: Os| o.word() != word@,
            },
    {
        let chars = chars_of(word);
        if spells(&chars, "pc-windows") {
            Some(Os::PcWindows)
        } else if spells(&chars, "unknown-linux") {
            Some(Os::UnknownLinux)
        } else if spells(&chars, "apple-darwin") {
            Some(Os::AppleDarwin)
        } else if spells(&chars, "unknown-netbsd") {
            Some(Os::UnknownNetbsd)
        } else if spells(&chars, "apple-ios") {
            Some(Os::AppleIos)
        } else if spells(&chars, "linux") {
            Some(Os::Linux)
        } else if spells(&chars, "rumprun-netbsd") {
            Some(Os::RumprunNetbsd)
        } else if spells(&chars, "unknown-freebsd") {
            Some(Os::UnknownFreebsd)
        } else {
            None
        }
    }
}

impl Env {
    /// How the environment is written in a triple.
    pub open spec fn word(self) -> Seq<char> {
        match self {
            Env::Gnu => "gnu"@,
            Env::Msvc => "msvc"@,
            Env::Gnueabi => "gnueabi"@,
            Env::Gnueabihf => "gnueabihf"@,
            Env::Gnuabi64 => "gnuabi64"@,
            Env::Androideabi => "androideabi"@,
            Env::Android => "android"@,
            Env::Musl => "musl"@,
        }
    }

    /// How the environment is written in a triple.
    pub fn name(self) -> (s: &'static str)
        ensures
            s@ == self.word(),
    {
        match self {
            Env::Gnu => "gnu",
            Env::Msvc => "msvc",
            Env::Gnueabi => "gnueabi",
            Env::Gnueabihf => "gnueabihf",
            Env::Gnuabi64 => "gnuabi64",
            Env::Androideabi => "androideabi",
            Env::Android => "android",
            Env::Musl => "musl",
        }
    }

    /// The environment that `word` spells, if it spells one.
    pub fn from_chars(word: &Vec<char>) -> (found: Option<Env>)
        ensures
            match found {
                Some(e) => e.word() == word@,
                None => forall|e: Env| e.word() != word@,
            },
    {
        if spells(word, "gnu") {
            Some(Env::Gnu)
        } else if spells(word, "msvc") {
            Some(Env::Msvc)
        } else if spells(word, "gnueabi") {
            Some(Env::Gnueabi)
        } else if spells(word, "gnueabihf") {
            Some(Env::Gnueabihf)
        } else if spells(word, "gnuabi64") {
            Some(Env::Gnuabi64)
        } else if spells(word, "androideabi") {
            Some(Env::Androideabi)
        } else if spells(word, "android") {
            Some(Env::Android)
        } else if spells(word, "musl") {
            Some(Env::Musl)
        } else {
            None
        }
    }

    /// The environment that `word` names, if it names one.
    pub fn parse(word: &str) -> (found: Option<Env>)
        ensures
            match found {
                Some(e) => e.word() == word@,
                None => forall|e: Env| e.word() != word@,
            },
    {
        Env::from_chars(&chars_of(word))
    }
}

/// Architecture words have letters and no dash, and no two architectures share a word.
pub proof fn lemma_arch_words(a: Arch, b: Arch)
    ensures
        a.word().len() > 0,
        dash_free(a.word()),
        a.word() == b.word() ==> a == b,
{
    reveal_strlit("i386");
    reveal_strlit("i586");
    reveal_strlit("i686");
    reveal_strlit("x86_64");
    reveal_strlit("arm");
    reveal_strlit("armv7");
    reveal_strlit("armv7s");
    reveal_strlit("aarch64");
    reveal_strlit("mips");
    reveal_strlit("mipsel");
    reveal_strlit("mips64");
    reveal_strlit("mips64el");
    reveal_strlit("powerpc");
    reveal_strlit("powerpc64");
    reveal_strlit("powerpc64le");
    reveal_strlit("s390x");
    let (x, y) = (a.word(), b.word());
    if x == y {
        assert(x.len() == y.len() && x[0] == y[0] && x[1] == y[1] && x[4] == y[4]);
    }
}

/// Environment words have letters and no dash, and no two environments share a word.
pub proof fn lemma_env_words(e: Env, f: Env)
    ensures
        e.word().len() > 0,
        dash_free(e.word()),
        e.word() == f.word() ==> e == f,
{
    reveal_strlit("gnu");
    reveal_strlit("msvc");
    reveal_strlit("gnueabi");
    reveal_strlit("gnueabihf");
    reveal_strlit("gnuabi64");
    reveal_strlit("androideabi");
    reveal_strlit("android");
    reveal_strlit("musl");
    let (x, y) = (e.word(), f.word());
    if x == y {
        assert(x.len() == y.len() && x[0] == y[0] && x[1] == y[1]);
    }
}

/// An operating system's pieces are one or two, have letters and no dash, and
/// joined by a dash give its word. No two operating systems share their pieces, and none
/// written in one piece is the vendor of another.
pub proof fn lemma_os_pieces(o: Os, p: Os)
    ensures
        1 <= o.pieces().len() <= 2,
        forall|k: int|
            0 <= k < o.pieces().len() ==> dash_free(#[trigger] o.pieces()[k]) && o.pieces()[k].len()
                > 0,
        join(o.pieces()) == o.word(),
        o.pieces() == p.pieces() ==> o == p,
        o.pieces()[0] == p.pieces()[0] ==> o.pieces().len() == p.pieces().len(),
{
    reveal_strlit("pc");
    reveal_strlit("windows");
    reveal_strlit("unknown");
    reveal_strlit("linux");
    reveal_strlit("apple");
    reveal_strlit("darwin");
    reveal_strlit("netbsd");
    reveal_strlit("ios");
    reveal_strlit("rumprun");
    reveal_strlit("freebsd");
    reveal_strlit("pc-windows");
    reveal_strlit("unknown-linux");
    reveal_strlit("apple-darwin");
    reveal_strlit("unknown-netbsd");
    reveal_strlit("apple-ios");
    reveal_strlit("rumprun-netbsd");
    reveal_strlit("unknown-freebsd");
    reveal_with_fuel(join, 3);
    let (x, y) = (o.pieces(), p.pieces());
    assert(x.len() >= 1 && y.len() >= 1);
    if x.len() == 2 {
        assert(x.drop_last() =~= seq![x[0]]);
        assert(join(x) =~= x[0] + seq!['-'] + x[1]);
    }
    assert(join(x) =~= o.word());
    if x[0] == y[0] {
        assert(x[0].len() == y[0].len() && x[0][0] == y[0][0]);
    }
    if x == y {
        assert(x.len() == y.len() && x[0] == y[0]);
        if x.len() == 2 {
            assert(x[1] == y[1]);
            assert(x[1].len() == y[1].len() && x[1][0] == y[1][0]);
        }
    }
}

/// The vocabularies do not overlap: no architecture is written like the first
/// piece of an operating system or like an environment, and no operating system
/// starts with the word of an environment.
pub proof fn lemma_words_apart(a: Arch, o: Os, e: Env)
    ensures
        a.word() != o.pieces()[0],
        a.word() != e.word(),
        o.pieces()[0] != e.word(),
{
    reveal_strlit("i386");
    reveal_strlit("i586");
    reveal_strlit("i686");
    reveal_strlit("x86_64");
    reveal_strlit("arm");
    reveal_strlit("armv7");
    reveal_strlit("armv7s");
    reveal_strlit("aarch64");
    reveal_strlit("mips");
    reveal_strlit("mipsel");
    reveal_strlit("mips64");
    reveal_strlit("mips64el");
    reveal_strlit("powerpc");
    reveal_strlit("powerpc64");
    reveal_strlit("powerpc64le");
    reveal_strlit("s390x");
    reveal_strlit("pc");
    reveal_strlit("unknown");
    reveal_strlit("apple");
    reveal_strlit("linux");
    reveal_strlit("rumprun");
    reveal_strlit("gnu");
    reveal_strlit("msvc");
    reveal_strlit("gnueabi");
    reveal_strlit("gnueabihf");
    reveal_strlit("gnuabi64");
    reveal_strlit("androideabi");
    reveal_strlit("android");
    reveal_strlit("musl");
    let (x, y, z) = (a.word(), o.pieces()[0], e.word());
    if x == y {
        assert(x.len() == y.len() && x[0] == y[0] && x[1] == y[1]);
    }
    if x == z {
        assert(x.len() == z.len() && x[0] == z[0] && x[1] == z[1]);
    }
    if y == z {
        assert(y.len() == z.len() && y[0] == z[0]);
    }
}

} // verus!
