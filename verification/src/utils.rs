//! Utilities for working with dynamic link libraries.
use vstd::prelude::*;

verus! {

/// The naming conventions of library files (`Windows *.dll`, `Apple lib*.dylib`,
/// `Unix lib*.so`).
#[derive(Debug, Clone, Copy, PartialEq, Eq, Structural)]
pub enum Platform {
    /// Windows: `*.dll`.
    Windows,
    /// macOS and iOS: `lib*.dylib`.
    Apple,
    /// Other Unix-based systems: `lib*.so`.
    Unix,
}

/// The file prefix of the platform, as bytes: `lib` on Unix-based systems,
/// nothing on Windows.
pub open spec fn spec_file_prefix(p: Platform) -> Seq<u8> {
    match p {
        Platform::Windows => Seq::<u8>::empty(),
        _ => seq![108u8, 105u8, 98u8],
    }
}

/// The file extension of the platform, as bytes: `dll`, `dylib` or `so`.
pub open spec fn spec_file_extension(p: Platform) -> Seq<u8> {
    match p {
        Platform::Windows => seq![100u8, 108u8, 108u8],
        Platform::Apple => seq![100u8, 121u8, 108u8, 105u8, 98u8],
        Platform::Unix => seq![115u8, 111u8],
    }
}

/// The name of the library file of `core_name` on the platform: prefix, core
/// name, a dot and the extension.
pub open spec fn spec_platform_file_name(p: Platform, core_name: Seq<u8>) -> Seq<u8> {
    spec_file_prefix(p) + core_name + seq![46u8] + spec_file_extension(p)
}

impl Platform {
    /// The platform-specific file prefix, as bytes.
    pub fn file_prefix(&self) -> (r: Vec<u8>)
        ensures
            r@ == spec_file_prefix(*self),
    {
        match self {
            Platform::Windows => Vec::new(),
            _ => {
                let mut v: Vec<u8> = Vec::new();
                v.push(108u8);
                v.push(105u8);
                v.push(98u8);
                assert(v@ =~= seq![108u8, 105u8, 98u8]);
                v
            },
        }
    }

    /// The platform-specific file extension, as bytes.
    pub fn file_extension(&self) -> (r: Vec<u8>)
        ensures
            r@ == spec_file_extension(*self),
    {
        let mut v: Vec<u8> = Vec::new();
        match self {
            Platform::Windows => {
                v.push(100u8);
                v.push(108u8);
                v.push(108u8);
                assert(v@ =~= seq![100u8, 108u8, 108u8]);
            },
            Platform::Apple => {
                v.push(100u8);
                v.push(121u8);
                v.push(108u8);
                v.push(105u8);
                v.push(98u8);
                assert(v@ =~= seq![100u8, 121u8, 108u8, 105u8, 98u8]);
            },
            Platform::Unix => {
                v.push(115u8);
                v.push(111u8);
                assert(v@ =~= seq![115u8, 111u8]);
            },
        }
        v
    }
}

/// The file name of every core name, on every platform: `lib` + name + `.so`
/// on Unix, `lib` + name + `.dylib` on Apple systems, name + `.dll` on Windows
/// (in bytes), whatever the name's length or content.
pub proof fn lemma_file_names(p: Platform, core_name: Seq<u8>)
    ensures
        p == Platform::Unix ==> spec_platform_file_name(p, core_name) == seq![108u8, 105u8, 98u8] + core_name
            + seq![46u8, 115u8, 111u8],
        p == Platform::Apple ==> spec_platform_file_name(p, core_name) == seq![108u8, 105u8, 98u8] + core_name
            + seq![46u8, 100u8, 121u8, 108u8, 105u8, 98u8],
        p == Platform::Windows ==> spec_platform_file_name(p, core_name) == core_name + seq![46u8, 100u8, 108u8, 108u8],
        spec_platform_file_name(p, core_name).subrange(
            spec_file_prefix(p).len() as int,
            (spec_file_prefix(p).len() + core_name.len()) as int,
        ) == core_name,
{
    let full = spec_platform_file_name(p, core_name);
    assert(full.subrange(spec_file_prefix(p).len() as int, (spec_file_prefix(p).len() + core_name.len()) as int) =~= core_name);
    match p {
        Platform::Unix => {
            assert(full =~= seq![108u8, 105u8, 98u8] + core_name + seq![46u8, 115u8, 111u8]);
        },
        Platform::Apple => {
            assert(full =~= seq![108u8, 105u8, 98u8] + core_name + seq![46u8, 100u8, 121u8, 108u8, 105u8, 98u8]);
        },
        Platform::Windows => {
            assert(full =~= core_name + seq![46u8, 100u8, 108u8, 108u8]);
        },
    }
}

/// Appends `s` to `out`.
fn append_all<T: Copy>(out: &mut Vec<T>, s: &[T])
    ensures
        final(out)@ == old(out)@ + s@,
{
    let mut i: usize = 0;
    while i < s.len()
        invariant
            i <= s@.len(),
            out@ == old(out)@ + s@.subrange(0, i as int),
        decreases s@.len() - i,
    {
        out.push(s[i]);
        i = i + 1;
        proof {
            assert(out@ =~= old(out)@ + s@.subrange(0, i as int));
        }
    }
    assert(s@.subrange(0, s@.len() as int) =~= s@);
}

/// The bytes of `s` as UTF-16 code units (all of them are ASCII here).
pub open spec fn widen(s: Seq<u8>) -> Seq<u16> {
    s.map_values(|b: u8| b as u16)
}

fn widen_vec(v: &Vec<u8>) -> (r: Vec<u16>)
    ensures
        r@ == widen(v@),
{
    let mut out: Vec<u16> = Vec::new();
    let mut i: usize = 0;
    while i < v.len()
        invariant
            i <= v@.len(),
            out@ == widen(v@.subrange(0, i as int)),
        decreases v@.len() - i,
    {
        out.push(v[i] as u16);
        i = i + 1;
        proof {
            assert(out@ =~= widen(v@.subrange(0, i as int)));
        }
    }
    assert(v@.subrange(0, v@.len() as int) =~= v@);
    out
}

///Crates a platform-specific file name from provided core file name.
///
/// For example on Ubuntu it converts "example" argument into "libexample.so".
pub fn platform_file_name(platform: Platform, core_name: &[u8]) -> (r: Vec<u8>)
    ensures
        r@ == spec_platform_file_name(platform, core_name@),
        platform == Platform::Unix ==> r@ == seq![108u8, 105u8, 98u8] + core_name@ + seq![46u8, 115u8, 111u8],
        platform == Platform::Apple ==> r@ == seq![108u8, 105u8, 98u8] + core_name@
            + seq![46u8, 100u8, 121u8, 108u8, 105u8, 98u8],
        platform == Platform::Windows ==> r@ == core_name@ + seq![46u8, 100u8, 108u8, 108u8],
{
    let mut result = platform.file_prefix();
    append_all(&mut result, core_name);
    result.push(46u8);
    let ext = platform.file_extension();
    append_all(&mut result, ext.as_slice());
    proof {
        lemma_file_names(platform, core_name@);
    }
    result
}

/// The same file name for a core name given as UTF-16 code units, as names are
/// on Windows: prefix, core name, a dot and the extension, unchanged.
pub fn platform_file_name_wide(platform: Platform, core_name: &[u16]) -> (r: Vec<u16>)
    ensures
        r@ == widen(spec_file_prefix(platform)) + core_name@ + seq![46u16] + widen(spec_file_extension(platform)),
        platform == Platform::Unix ==> r@ == seq![108u16, 105u16, 98u16] + core_name@ + seq![46u16, 115u16, 111u16],
        platform == Platform::Apple ==> r@ == seq![108u16, 105u16, 98u16] + core_name@
            + seq![46u16, 100u16, 121u16, 108u16, 105u16, 98u16],
        platform == Platform::Windows ==> r@ == core_name@ + seq![46u16, 100u16, 108u16, 108u16],
{
    let prefix = platform.file_prefix();
    let mut result = widen_vec(&prefix);
    append_all(&mut result, core_name);
    result.push(46u16);
    let ext = platform.file_extension();
    let wide_ext = widen_vec(&ext);
    append_all(&mut result, wide_ext.as_slice());
    proof {
        let full = widen(spec_file_prefix(platform)) + core_name@ + seq![46u16] + widen(spec_file_extension(platform));
        match platform {
            Platform::Unix => {
                assert(widen(spec_file_prefix(platform)) =~= seq![108u16, 105u16, 98u16]);
                assert(widen(spec_file_extension(platform)) =~= seq![115u16, 111u16]);
                assert(full =~= seq![108u16, 105u16, 98u16] + core_name@ + seq![46u16, 115u16, 111u16]);
            },
            Platform::Apple => {
                assert(widen(spec_file_prefix(platform)) =~= seq![108u16, 105u16, 98u16]);
                assert(widen(spec_file_extension(platform)) =~= seq![100u16, 121u16, 108u16, 105u16, 98u16]);
                assert(full =~= seq![108u16, 105u16, 98u16] + core_name@ + seq![46u16, 100u16, 121u16, 108u16, 105u16, 98u16]);
            },
            Platform::Windows => {
                assert(widen(spec_file_prefix(platform)) =~= Seq::<u16>::empty());
                assert(widen(spec_file_extension(platform)) =~= seq![100u16, 108u16, 108u16]);
                assert(full =~= core_name@ + seq![46u16, 100u16, 108u16, 108u16]);
            },
        }
    }
    result
}

} // verus!
