//! The platforms a project can carry binaries for.

use vstd::prelude::*;
use vstd::string::*;
use crate::text::{decimal, decimal_string, str_eq, Text};

verus! {

/// A supported platform.
#[derive(Debug, Clone, Copy, PartialEq, Eq, Hash, Structural)]
pub enum Platform {
    LinuxAmd64,
    MacosAmd64,
    MacosArm64,
    WindowsAmd64,
    WindowsArm64,
}

/// All supported platforms.
pub const ALL_PLATFORMS: [Platform; 5] = [
    Platform::LinuxAmd64,
    Platform::MacosAmd64,
    Platform::MacosArm64,
    Platform::WindowsAmd64,
    Platform::WindowsArm64,
];

/// All supported platforms, in the order they are offered in.
pub open spec fn supported() -> Seq<Platform> {
    seq![
        Platform::LinuxAmd64,
        Platform::MacosAmd64,
        Platform::MacosArm64,
        Platform::WindowsAmd64,
        Platform::WindowsArm64,
    ]
}

/// The platform that the identifier `id` names.
pub open spec fn platform_with_id(id: Text) -> Option<Platform> {
    if id == "linux-amd64"@ {
        Some(Platform::LinuxAmd64)
    } else if id == "macos-amd64"@ {
        Some(Platform::MacosAmd64)
    } else if id == "macos-arm64"@ {
        Some(Platform::MacosArm64)
    } else if id == "windows-amd64"@ {
        Some(Platform::WindowsAmd64)
    } else if id == "windows-arm64"@ {
        Some(Platform::WindowsArm64)
    } else {
        None
    }
}

/// The platform of a host whose operating system and processor go by the
/// names `os` and `arch`.
pub open spec fn platform_of_host(os: Text, arch: Text) -> Option<Platform> {
    if os == "linux"@ && arch == "x86_64"@ {
        Some(Platform::LinuxAmd64)
    } else if os == "macos"@ && arch == "x86_64"@ {
        Some(Platform::MacosAmd64)
    } else if os == "macos"@ && arch == "aarch64"@ {
        Some(Platform::MacosArm64)
    } else if os == "windows"@ && arch == "x86_64"@ {
        Some(Platform::WindowsAmd64)
    } else if os == "windows"@ && arch == "aarch64"@ {
        Some(Platform::WindowsArm64)
    } else {
        None
    }
}

/// The sum of the binary sizes of `platforms`.
pub open spec fn total_bytes(platforms: Seq<Platform>) -> nat
    decreases platforms.len(),
{
    if platforms.len() == 0 {
        0
    } else {
        total_bytes(platforms.drop_last()) + platforms.last().bytes()
    }
}

impl Platform {
    /// The identifier of the platform.
    pub open spec fn id_text(self) -> Text {
        match self {
            Platform::LinuxAmd64 => "linux-amd64"@,
            Platform::MacosAmd64 => "macos-amd64"@,
            Platform::MacosArm64 => "macos-arm64"@,
            Platform::WindowsAmd64 => "windows-amd64"@,
            Platform::WindowsArm64 => "windows-arm64"@,
        }
    }

    /// The file name of the platform's binary.
    pub open spec fn binary_text(self) -> Text {
        match self {
            Platform::LinuxAmd64 => "rnr-linux-amd64"@,
            Platform::MacosAmd64 => "rnr-macos-amd64"@,
            Platform::MacosArm64 => "rnr-macos-arm64"@,
            Platform::WindowsAmd64 => "rnr-windows-amd64.exe"@,
            Platform::WindowsArm64 => "rnr-windows-arm64.exe"@,
        }
    }

    /// The approximate size of the platform's binary, in bytes.
    pub open spec fn bytes(self) -> nat {
        match self {
            Platform::LinuxAmd64 => 760 * 1024,
            Platform::MacosAmd64 => 662 * 1024,
            Platform::MacosArm64 => 608 * 1024,
            Platform::WindowsAmd64 => 584 * 1024,
            Platform::WindowsArm64 => 528 * 1024,
        }
    }

    /// The platform identifier, such as `linux-amd64`.
    pub fn id(&self) -> (id: &'static str)
        ensures
            id@ == self.id_text(),
    {
        match self {
            Platform::LinuxAmd64 => "linux-amd64",
            Platform::MacosAmd64 => "macos-amd64",
            Platform::MacosArm64 => "macos-arm64",
            Platform::WindowsAmd64 => "windows-amd64",
            Platform::WindowsArm64 => "windows-arm64",
        }
    }

    /// The file name of the binary for this platform.
    pub fn binary_name(&self) -> (name: &'static str)
        ensures
            name@ == self.binary_text(),
    {
        match self {
            Platform::LinuxAmd64 => "rnr-linux-amd64",
            Platform::MacosAmd64 => "rnr-macos-amd64",
            Platform::MacosArm64 => "rnr-macos-arm64",
            Platform::WindowsAmd64 => "rnr-windows-amd64.exe",
            Platform::WindowsArm64 => "rnr-windows-arm64.exe",
        }
    }

    /// The approximate binary size in bytes.
    pub fn size_bytes(&self) -> (size: u64)
        ensures
            size == self.bytes(),
    {
        match self {
            Platform::LinuxAmd64 => 760 * 1024,
            Platform::MacosAmd64 => 662 * 1024,
            Platform::MacosArm64 => 608 * 1024,
            Platform::WindowsAmd64 => 584 * 1024,
            Platform::WindowsArm64 => 528 * 1024,
        }
    }

    /// The binary size in whole kibibytes, for display.
    pub fn size_display(&self) -> (shown: String)
        ensures
            shown@ == decimal(self.bytes() / 1024) + " KB"@,
    {
        let kb = self.size_bytes() / 1024;
        decimal_string(kb as u128).concat(" KB")
    }

    /// The platform that the identifier `id` names, if it names one.
    pub fn from_id(id: &str) -> (platform: Option<Platform>)
        ensures
            platform == platform_with_id(id@),
    {
        if str_eq(id, "linux-amd64") {
            Some(Platform::LinuxAmd64)
        } else if str_eq(id, "macos-amd64") {
            Some(Platform::MacosAmd64)
        } else if str_eq(id, "macos-arm64") {
            Some(Platform::MacosArm64)
        } else if str_eq(id, "windows-amd64") {
            Some(Platform::WindowsAmd64)
        } else if str_eq(id, "windows-arm64") {
            Some(Platform::WindowsArm64)
        } else {
            None
        }
    }

    /// The platform of a host, from the names the host gives its operating
    /// system and its processor; none for a host that is not supported.
    pub fn current(os: &str, arch: &str) -> (platform: Option<Platform>)
        ensures
            platform == platform_of_host(os@, arch@),
    {
        let amd64 = str_eq(arch, "x86_64");
        let arm64 = str_eq(arch, "aarch64");
        if str_eq(os, "linux") && amd64 {
            Some(Platform::LinuxAmd64)
        } else if str_eq(os, "macos") && amd64 {
            Some(Platform::MacosAmd64)
        } else if str_eq(os, "macos") && arm64 {
            Some(Platform::MacosArm64)
        } else if str_eq(os, "windows") && amd64 {
            Some(Platform::WindowsAmd64)
        } else if str_eq(os, "windows") && arm64 {
            Some(Platform::WindowsArm64)
        } else {
            None
        }
    }
}

/// Every platform is found again by its identifier, so no two platforms
/// share one.
pub proof fn law_id_roundtrip(platform: Platform)
    ensures
        platform_with_id(platform.id_text()) == Some(platform),
{
    reveal_strlit("linux-amd64");
    reveal_strlit("macos-amd64");
    reveal_strlit("macos-arm64");
    reveal_strlit("windows-amd64");
    reveal_strlit("windows-arm64");
    assert("linux-amd64"@[0] == 'l');
    assert("macos-amd64"@[0] == 'm');
    assert("macos-amd64"@[7] == 'm');
    assert("macos-arm64"@[0] == 'm');
    assert("macos-arm64"@[7] == 'r');
    assert("windows-amd64"@[0] == 'w');
    assert("windows-amd64"@[9] == 'm');
    assert("windows-arm64"@[0] == 'w');
    assert("windows-arm64"@[9] == 'r');
}

/// All supported platforms.
pub fn all_platforms() -> (all: Vec<Platform>)
    ensures
        all@ == supported(),
{
    let mut all: Vec<Platform> = Vec::new();
    all.push(Platform::LinuxAmd64);
    all.push(Platform::MacosAmd64);
    all.push(Platform::MacosArm64);
    all.push(Platform::WindowsAmd64);
    all.push(Platform::WindowsArm64);
    assert(all@ =~= supported());
    all
}

/// A longer list sums to no less.
pub proof fn lemma_total_bytes_grows(platforms: Seq<Platform>, n: int)
    requires
        0 <= n <= platforms.len(),
    ensures
        total_bytes(platforms.take(n)) <= total_bytes(platforms),
    decreases platforms.len() - n,
{
    if n == platforms.len() {
        assert(platforms.take(n) =~= platforms);
    } else {
        lemma_total_bytes_grows(platforms.drop_last(), n);
        assert(platforms.drop_last().take(n) =~= platforms.take(n));
    }
}

/// The total binary size of `platforms`, in bytes.
pub fn total_size(platforms: &[Platform]) -> (total: u64)
    requires
        total_bytes(platforms@) <= u64::MAX,
    ensures
        total == total_bytes(platforms@),
{
    let mut total: u64 = 0;
    let mut i: usize = 0;
    while i < platforms.len()
        invariant
            i <= platforms.len(),
            total == total_bytes(platforms@.take(i as int)),
            total_bytes(platforms@) <= u64::MAX,
        decreases platforms.len() - i,
    {
        proof {
            lemma_total_bytes_grows(platforms@, i + 1);
            assert(platforms@.take(i + 1).drop_last() =~= platforms@.take(i as int));
        }
        total = total + platforms[i].size_bytes();
        i += 1;
    }
    assert(platforms@.take(i as int) =~= platforms@);
    total
}

/// The total binary size of `platforms`, unless it does not fit 64 bits.
pub fn checked_total_size(platforms: &[Platform]) -> (total: Option<u64>)
    ensures
        total == if total_bytes(platforms@) <= u64::MAX {
            Some(total_bytes(platforms@) as u64)
        } else {
            None
        },
{
    let mut total: u64 = 0;
    let mut i: usize = 0;
    while i < platforms.len()
        invariant
            i <= platforms.len(),
            total == total_bytes(platforms@.take(i as int)),
        decreases platforms.len() - i,
    {
        proof {
            lemma_total_bytes_grows(platforms@, i + 1);
            assert(platforms@.take(i + 1).drop_last() =~= platforms@.take(i as int));
        }
        match total.checked_add(platforms[i].size_bytes()) {
            Some(sum) => {
                total = sum;
            },
            None => {
                return None;
            },
        }
        i += 1;
    }
    assert(platforms@.take(i as int) =~= platforms@);
    Some(total)
}

/// `numerator / denominator`, rounded to the nearest whole number; where two
/// are equally near, to the even one.
pub open spec fn round_half_even(numerator: nat, denominator: nat) -> nat {
    let quotient = numerator / denominator;
    let rest = numerator % denominator;
    if 2 * rest > denominator || (2 * rest == denominator && quotient % 2 == 1) {
        quotient + 1
    } else {
        quotient
    }
}

/// The distance between neighbouring double-precision numbers around `n`,
/// for a whole number `n`: 1 below 2^53, and twice as much from each power
/// of two on.
pub open spec fn double_step(n: nat) -> nat
    decreases n,
{
    if n < 0x20_0000_0000_0000 {
        1
    } else {
        2 * double_step(n / 2)
    }
}

/// The double-precision number nearest to `n`; where two are equally near,
/// the one with the even mantissa.
pub open spec fn nearest_double(n: nat) -> nat {
    round_half_even(n, double_step(n)) * double_step(n)
}

/// The size `bytes` in hundredths of a mebibyte, as a double-precision
/// quotient shows it with two decimals.
pub open spec fn mebibyte_hundredths(bytes: nat) -> nat {
    round_half_even(nearest_double(bytes) * 100, 1024 * 1024)
}

/// How a size is shown: in whole kibibytes below a mebibyte, else in
/// mebibytes with two decimals.
pub open spec fn size_text(bytes: nat) -> Text {
    if bytes >= 1024 * 1024 {
        let hundredths = mebibyte_hundredths(bytes);
        decimal(hundredths / 100) + "."@ + decimal(hundredths % 100 / 10) + decimal(
            hundredths % 10,
        ) + " MB"@
    } else {
        decimal(bytes / 1024) + " KB"@
    }
}

/// `numerator / denominator`, rounded to nearest, ties to even.
fn divide_rounding(numerator: u128, denominator: u128) -> (rounded: u128)
    requires
        denominator > 0,
        numerator < 0x1_0000_0000_0000_0000_0000,
    ensures
        rounded == round_half_even(numerator as nat, denominator as nat),
{
    let quotient = numerator / denominator;
    let rest = numerator % denominator;
    if rest > denominator - rest || (rest == denominator - rest && quotient % 2 == 1) {
        quotient + 1
    } else {
        quotient
    }
}

/// The distance between neighbouring double-precision numbers around `n`.
fn step_of(n: u64) -> (step: u64)
    ensures
        step == double_step(n as nat),
        1 <= step <= 4094,
{
    let mut rest: u64 = n;
    let mut step: u64 = 1;
    while rest >= 0x20_0000_0000_0000
        invariant
            double_step(n as nat) == step * double_step(rest as nat),
            1 <= step <= 4094,
            step * rest <= n,
        decreases rest,
    {
        proof {
            assert(step < 2048) by (nonlinear_arith)
                requires
                    step * rest <= n,
                    rest >= 0x20_0000_0000_0000,
                    n <= u64::MAX,
            ;
            assert(step * (2 * double_step((rest / 2) as nat)) == (step * 2) * double_step(
                (rest / 2) as nat,
            )) by (nonlinear_arith);
            assert((step * 2) * (rest / 2) <= step * rest) by (nonlinear_arith)
                requires
                    (rest / 2) * 2 <= rest,
            ;
        }
        rest = rest / 2;
        step = step * 2;
    }
    assert(step * 1 == step);
    step
}

/// A size for display: in whole kibibytes below a mebibyte, else in
/// mebibytes with two decimals, as the double-precision quotient of the size
/// and a mebibyte shows them.
pub fn format_size(bytes: u64) -> (shown: String)
    ensures
        shown@ == size_text(bytes as nat),
{
    if bytes >= 1024 * 1024 {
        let step = step_of(bytes);
        let mantissa = divide_rounding(bytes as u128, step as u128);
        proof {
            vstd::arithmetic::div_mod::lemma_fundamental_div_mod(bytes as int, step as int);
            assert(mantissa * step <= bytes + step) by (nonlinear_arith)
                requires
                    mantissa <= bytes / step + 1,
                    bytes == step * (bytes / step) + bytes % step,
                    bytes % step >= 0,
                    step >= 1,
            ;
        }
        let nearest: u128 = mantissa * (step as u128);
        let hundredths = divide_rounding(nearest * 100, 1024 * 1024);
        decimal_string(hundredths / 100).concat(".").concat(
            decimal_string(hundredths % 100 / 10).as_str(),
        ).concat(decimal_string(hundredths % 10).as_str()).concat(" MB")
    } else {
        decimal_string((bytes / 1024) as u128).concat(" KB")
    }
}

} // verus!
