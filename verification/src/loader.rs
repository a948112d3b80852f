use vstd::prelude::*;
use vstd::string::*;

verus! {

/// Size of the buffer that each network read fills.
pub const CHUNK_LEN: usize = 4096;

/// The loader's settings: where to fetch the menu library from and the
/// file name to save it under.
#[derive(Clone, Debug)]
pub struct LoaderConfig {
    pub menu_url: String,
    pub menu_dll_name: String,
}

impl Default for LoaderConfig {
    /// The latest release of the menu on GitHub, saved as `randommenu.dll`.
    fn default() -> (c: Self)
        ensures
            c.menu_url@
                == "https://github.com/neutro74/randommenu/releases/latest/download/randommenu.dll"@,
            c.menu_dll_name@ == "randommenu.dll"@,
    {
        LoaderConfig {
            menu_url: String::from_str(
                "https://github.com/neutro74/randommenu/releases/latest/download/randommenu.dll",
            ),
            menu_dll_name: String::from_str("randommenu.dll"),
        }
    }
}

impl LoaderConfig {
    /// The settings to use given what could be read from the settings file:
    /// those read, or the defaults, which are then to be written to the file
    /// (the flag says so).
    pub fn or_default(read: Option<LoaderConfig>) -> (r: (LoaderConfig, bool))
        ensures
            match read {
                Some(c) => r.0 == c && !r.1,
                None => r.0.menu_url@
                    == "https://github.com/neutro74/randommenu/releases/latest/download/randommenu.dll"@
                    && r.0.menu_dll_name@ == "randommenu.dll"@ && r.1,
            },
    {
        match read {
            Some(c) => (c, false),
            None => (LoaderConfig::default(), true),
        }
    }
}

/// Whether `s` can be handed to the system as a C string: its UTF-8 bytes
/// hold no NUL. A URL that cannot is not downloaded.
pub fn is_c_string(s: &str) -> (b: bool)
    ensures
        b == !s.spec_bytes().contains(0u8),
{
    let bytes = s.as_bytes();
    let mut i: usize = 0;
    while i < bytes.len()
        invariant
            i <= bytes@.len(),
            bytes@ == s.spec_bytes(),
            forall|j: int| 0 <= j < i ==> bytes@[j] != 0u8,
        decreases bytes@.len() - i,
    {
        if bytes[i] == 0 {
            assert(bytes@[i as int] == 0u8);
            return false;
        }
        i = i + 1;
    }
    true
}

/// Takes the outcome of one read of the download into `chunk`: `ok` is the
/// read call's status and `read` the number of bytes it delivered. A failed
/// or empty read ends the download; otherwise the bytes delivered are
/// appended to `out` and reading goes on.
pub fn take_chunk(out: &mut Vec<u8>, chunk: &[u8], ok: i32, read: u32) -> (more: bool)
    requires
        read as int <= chunk@.len(),
    ensures
        more == (ok != 0 && read != 0),
        more ==> final(out)@ == old(out)@ + chunk@.take(read as int),
        !more ==> final(out)@ == old(out)@,
{
    if ok == 0 || read == 0 {
        return false;
    }
    let n = read as usize;
    let ghost start = out@;
    let mut i: usize = 0;
    while i < n
        invariant
            i <= n,
            n as int <= chunk@.len(),
            out@ =~= start + chunk@.take(i as int),
        decreases n - i,
    {
        out.push(chunk[i]);
        i = i + 1;
        assert(out@ =~= start + chunk@.take(i as int));
    }
    true
}

/// The result of a finished download: nothing if no byte arrived.
pub fn finish_download(out: Vec<u8>) -> (r: Option<Vec<u8>>)
    ensures
        out@.len() == 0 ==> r is None,
        out@.len() != 0 ==> (r matches Some(v) && v@ == out@),
{
    if out.len() == 0 {
        None
    } else {
        Some(out)
    }
}

} // verus!
