//! Distribution families and their GRUB / initramfs conventions, and the
//! detection of the family from the text of `/etc/os-release`.
use vstd::prelude::*;
use crate::text::{
    chars_eq_str, chars_of, contains_char, contains_str, copy_range, find_char, first_index_of,
    has_prefix, has_sub, lines, lines_exec, lowercase, replace_all, replace_exec, starts_with,
    starts_with_str, string_of, to_lowercase, trim, trim_exec, views_as, Pat,
};

verus! {

/// What a distribution family needs from the repair: the names and paths of
/// its tools.  Each method's result is stated by the matching spec function.
pub trait Distro {
    spec fn spec_name(&self) -> Seq<char>;

    spec fn spec_grub_config_path(&self) -> Seq<char>;

    spec fn spec_initramfs_cmd(&self) -> Seq<Seq<char>>;

    spec fn spec_post_grub_hook(&self) -> Option<Seq<char>>;

    spec fn spec_grub_install_bin(&self) -> Seq<char>;

    spec fn spec_grub_mkconfig_bin(&self) -> Seq<char>;

    /// The user-facing name of the distribution.
    fn name(&self) -> (r: &str)
        ensures
            r@ == self.spec_name(),
    ;

    /// Where the generated GRUB configuration lives, as an absolute path inside the target.
    fn grub_config_path(&self) -> (r: &'static str)
        ensures
            r@ == self.spec_grub_config_path(),
    ;

    /// The program and arguments that rebuild the initramfs inside the target;
    /// empty where no command is safe to guess.
    fn initramfs_cmd(&self) -> (r: Vec<&'static str>)
        ensures
            r@.len() == self.spec_initramfs_cmd().len(),
            forall|i: int| 0 <= i < r@.len() ==> (#[trigger] r@[i])@ == self.spec_initramfs_cmd()[i],
    ;

    /// The program that must run inside the target after the GRUB
    /// configuration was written, if the family needs one.
    fn post_grub_hook(&self) -> (r: Option<&'static str>)
        ensures
            r is Some == self.spec_post_grub_hook() is Some,
            r is Some ==> r->0@ == self.spec_post_grub_hook()->0,
    ;

    fn grub_install_bin(&self) -> (r: &'static str)
        ensures
            r@ == self.spec_grub_install_bin(),
    ;

    fn grub_mkconfig_bin(&self) -> (r: &'static str)
        ensures
            r@ == self.spec_grub_mkconfig_bin(),
    ;

    /// Where `/etc/default/grub` lives, relative to the target root.
    fn default_grub_file_path(&self) -> (r: &'static str)
        ensures
            r@ == "etc/default/grub"@,
    ;
}

pub struct ArchLinux;

pub struct Debian;

pub struct Fedora;

pub struct UnknownDistro {
    pub detected_name: String,
}

impl Distro for ArchLinux {
    open spec fn spec_name(&self) -> Seq<char> {
        "Arch Linux"@
    }

    open spec fn spec_grub_config_path(&self) -> Seq<char> {
        "/boot/grub/grub.cfg"@
    }

    open spec fn spec_initramfs_cmd(&self) -> Seq<Seq<char>> {
        seq!["mkinitcpio"@, "-P"@]
    }

    open spec fn spec_post_grub_hook(&self) -> Option<Seq<char>> {
        None
    }

    open spec fn spec_grub_install_bin(&self) -> Seq<char> {
        "grub-install"@
    }

    open spec fn spec_grub_mkconfig_bin(&self) -> Seq<char> {
        "grub-mkconfig"@
    }

    fn name(&self) -> (r: &str) {
        "Arch Linux"
    }

    fn grub_config_path(&self) -> (r: &'static str) {
        "/boot/grub/grub.cfg"
    }

    fn initramfs_cmd(&self) -> (r: Vec<&'static str>) {
        let r = vec!["mkinitcpio", "-P"];
        assert(r@[0]@ == "mkinitcpio"@ && r@[1]@ == "-P"@);
        r
    }

    fn post_grub_hook(&self) -> (r: Option<&'static str>) {
        None
    }

    fn grub_install_bin(&self) -> (r: &'static str) {
        "grub-install"
    }

    fn grub_mkconfig_bin(&self) -> (r: &'static str) {
        "grub-mkconfig"
    }

    fn default_grub_file_path(&self) -> (r: &'static str) {
        "etc/default/grub"
    }
}

impl Distro for Debian {
    open spec fn spec_name(&self) -> Seq<char> {
        "Debian/Ubuntu Family"@
    }

    open spec fn spec_grub_config_path(&self) -> Seq<char> {
        "/boot/grub/grub.cfg"@
    }

    open spec fn spec_initramfs_cmd(&self) -> Seq<Seq<char>> {
        seq!["update-initramfs"@, "-u"@, "-k"@, "all"@]
    }

    open spec fn spec_post_grub_hook(&self) -> Option<Seq<char>> {
        Some("update-grub"@)
    }

    open spec fn spec_grub_install_bin(&self) -> Seq<char> {
        "grub-install"@
    }

    open spec fn spec_grub_mkconfig_bin(&self) -> Seq<char> {
        "grub-mkconfig"@
    }

    fn name(&self) -> (r: &str) {
        "Debian/Ubuntu Family"
    }

    fn grub_config_path(&self) -> (r: &'static str) {
        "/boot/grub/grub.cfg"
    }

    fn initramfs_cmd(&self) -> (r: Vec<&'static str>) {
        let r = vec!["update-initramfs", "-u", "-k", "all"];
        assert(r@[0]@ == "update-initramfs"@ && r@[1]@ == "-u"@ && r@[2]@ == "-k"@ && r@[3]@
            == "all"@);
        r
    }

    fn post_grub_hook(&self) -> (r: Option<&'static str>) {
        Some("update-grub")
    }

    fn grub_install_bin(&self) -> (r: &'static str) {
        "grub-install"
    }

    fn grub_mkconfig_bin(&self) -> (r: &'static str) {
        "grub-mkconfig"
    }

    fn default_grub_file_path(&self) -> (r: &'static str) {
        "etc/default/grub"
    }
}

impl Distro for Fedora {
    open spec fn spec_name(&self) -> Seq<char> {
        "Fedora Linux"@
    }

    open spec fn spec_grub_config_path(&self) -> Seq<char> {
        "/boot/grub2/grub.cfg"@
    }

    open spec fn spec_initramfs_cmd(&self) -> Seq<Seq<char>> {
        seq!["dracut"@, "--regenerate-all"@, "--force"@]
    }

    open spec fn spec_post_grub_hook(&self) -> Option<Seq<char>> {
        None
    }

    open spec fn spec_grub_install_bin(&self) -> Seq<char> {
        "grub2-install"@
    }

    open spec fn spec_grub_mkconfig_bin(&self) -> Seq<char> {
        "grub2-mkconfig"@
    }

    fn name(&self) -> (r: &str) {
        "Fedora Linux"
    }

    fn grub_config_path(&self) -> (r: &'static str) {
        "/boot/grub2/grub.cfg"
    }

    fn initramfs_cmd(&self) -> (r: Vec<&'static str>) {
        let r = vec!["dracut", "--regenerate-all", "--force"];
        assert(r@[0]@ == "dracut"@ && r@[1]@ == "--regenerate-all"@ && r@[2]@ == "--force"@);
        r
    }

    fn post_grub_hook(&self) -> (r: Option<&'static str>) {
        None
    }

    fn grub_install_bin(&self) -> (r: &'static str) {
        "grub2-install"
    }

    fn grub_mkconfig_bin(&self) -> (r: &'static str) {
        "grub2-mkconfig"
    }

    fn default_grub_file_path(&self) -> (r: &'static str) {
        "etc/default/grub"
    }
}

impl Distro for UnknownDistro {
    open spec fn spec_name(&self) -> Seq<char> {
        self.detected_name@
    }

    open spec fn spec_grub_config_path(&self) -> Seq<char> {
        "/boot/grub/grub.cfg"@
    }

    open spec fn spec_initramfs_cmd(&self) -> Seq<Seq<char>> {
        Seq::empty()
    }

    open spec fn spec_post_grub_hook(&self) -> Option<Seq<char>> {
        None
    }

    open spec fn spec_grub_install_bin(&self) -> Seq<char> {
        "grub-install"@
    }

    open spec fn spec_grub_mkconfig_bin(&self) -> Seq<char> {
        "grub-mkconfig"@
    }

    fn name(&self) -> (r: &str) {
        self.detected_name.as_str()
    }

    fn grub_config_path(&self) -> (r: &'static str) {
        "/boot/grub/grub.cfg"
    }

    fn initramfs_cmd(&self) -> (r: Vec<&'static str>) {
        // Initramfs tooling differs too much between the less common
        // distributions to guess a command that may be destructive.
        Vec::new()
    }

    fn post_grub_hook(&self) -> (r: Option<&'static str>) {
        None
    }

    fn grub_install_bin(&self) -> (r: &'static str) {
        "grub-install"
    }

    fn grub_mkconfig_bin(&self) -> (r: &'static str) {
        "grub-mkconfig"
    }

    fn default_grub_file_path(&self) -> (r: &'static str) {
        "etc/default/grub"
    }
}

/// The name shown for a distribution that no family matched: the value of
/// the first line that starts with `NAME=`, with every `NAME=` removed and
/// double quotes trimmed from both ends.
pub open spec fn unknown_name_from_lines(ls: Seq<Seq<char>>) -> Seq<char>
    decreases ls.len(),
{
    if ls.len() == 0 {
        "Generic Linux Environment"@
    } else if has_prefix(ls[0], "NAME="@) {
        trim(replace_all(ls[0], "NAME="@, Seq::empty()), Pat::Ch('"'))
    } else {
        unknown_name_from_lines(ls.drop_first())
    }
}

pub open spec fn unknown_name(os_release: Option<Seq<char>>) -> Seq<char> {
    match os_release {
        None => "Generic Linux Environment"@,
        Some(c) => unknown_name_from_lines(lines(c)),
    }
}

impl UnknownDistro {
    /// Takes a display name from the text of `/etc/os-release` (`None` when
    /// the file could not be read), falling back to a generic name.
    pub fn new(os_release: Option<&str>) -> (r: Self)
        ensures
            r.detected_name@ == unknown_name(
                match os_release {
                    Some(s) => Some(s@),
                    None => None,
                },
            ),
    {
        match os_release {
            None => UnknownDistro { detected_name: String::from_str("Generic Linux Environment") },
            Some(content) => {
                let v = chars_of(content);
                let ls = lines_exec(&v);
                let ghost g = lines(v@);
                let prefix = chars_of("NAME=");
                let empty: Vec<char> = Vec::new();
                let mut i: usize = 0;
                proof {
                    reveal_strlit("NAME=");
                    assert(g.skip(0) =~= g);
                    assert(empty@ =~= Seq::<char>::empty());
                }
                while i < ls.len()
                    invariant
                        i <= ls.len(),
                        views_as(ls@, g),
                        g == lines(content@),
                        os_release == Some(content),
                        prefix@ == "NAME="@,
                        empty@ == Seq::<char>::empty(),
                        prefix@.len() > 0,
                        unknown_name_from_lines(g) == unknown_name_from_lines(g.skip(i as int)),
                    decreases ls.len() - i,
                {
                    proof {
                        assert(g.skip(i as int)[0] == g[i as int]);
                        assert(g.skip(i as int).drop_first() =~= g.skip(i + 1));
                    }
                    if starts_with(&ls[i], &prefix) {
                        let replaced = replace_exec(&ls[i], &prefix, &empty);
                        let name = trim_exec(&replaced, Pat::Ch('"'));
                        proof {
                            let t = g.skip(i as int);
                            assert(ls@[i as int]@ == g[i as int]);
                            assert(t.len() > 0 && t[0] == g[i as int]);
                            assert(has_prefix(t[0], "NAME="@));
                            assert(unknown_name_from_lines(t) == trim(
                                replace_all(t[0], "NAME="@, Seq::empty()),
                                Pat::Ch('"'),
                            ));
                        }
                        return UnknownDistro { detected_name: string_of(&name) };
                    }
                    i = i + 1;
                }
                proof {
                    assert(g.skip(i as int).len() == 0);
                }
                UnknownDistro { detected_name: String::from_str("Generic Linux Environment") }
            },
        }
    }
}

/// The distribution family that the identifiers of `/etc/os-release` name.
#[derive(Clone, Copy, Debug, PartialEq, Eq)]
pub enum Family {
    Arch,
    Debian,
    Fedora,
    Other,
}

/// Which family `ID` and `ID_LIKE` (both already lowercased) select.
pub open spec fn family_of(id: Seq<char>, id_like: Seq<char>) -> Family {
    if id == "arch"@ || has_sub(id_like, "arch"@) {
        Family::Arch
    } else if id == "debian"@ || id == "ubuntu"@ || has_sub(id_like, "debian"@) {
        Family::Debian
    } else if id == "fedora"@ || id == "rhel"@ || has_sub(id_like, "fedora"@) || has_sub(
        id_like,
        "rhel"@,
    ) {
        Family::Fedora
    } else {
        Family::Other
    }
}

/// Selects the family from the lowercased values of `ID` and `ID_LIKE`.
pub fn family_from_ids(id: &Vec<char>, id_like: &Vec<char>) -> (r: Family)
    ensures
        r == family_of(id@, id_like@),
{
    if chars_eq_str(id, "arch") || contains_str(id_like, "arch") {
        Family::Arch
    } else if chars_eq_str(id, "debian") || chars_eq_str(id, "ubuntu") || contains_str(
        id_like,
        "debian",
    ) {
        Family::Debian
    } else if chars_eq_str(id, "fedora") || chars_eq_str(id, "rhel") || contains_str(
        id_like,
        "fedora",
    ) || contains_str(id_like, "rhel") {
        Family::Fedora
    } else {
        Family::Other
    }
}

/// The part of a line before its first `=`.
pub open spec fn key_part(l: Seq<char>) -> Seq<char> {
    match first_index_of(l, '=') {
        Some(i) => l.subrange(0, i),
        None => l,
    }
}

/// The part of a line after its first `=`.
pub open spec fn value_part(l: Seq<char>) -> Seq<char> {
    match first_index_of(l, '=') {
        Some(i) => l.subrange(i + 1, l.len() as int),
        None => Seq::empty(),
    }
}

/// A value with surrounding whitespace removed, then double quotes, then
/// single quotes, then lowercased.
pub open spec fn clean_value(v: Seq<char>) -> Seq<char> {
    lowercase(trim(trim(trim(v, Pat::Ws), Pat::Ch('"')), Pat::Ch('\'')))
}

/// The values of `ID` and `ID_LIKE` after reading `ls`: comment lines and
/// lines without `=` are skipped, a later assignment overrides an earlier one.
pub open spec fn os_release_ids(ls: Seq<Seq<char>>) -> (Seq<char>, Seq<char>)
    decreases ls.len(),
{
    if ls.len() == 0 {
        (Seq::empty(), Seq::empty())
    } else {
        let (id, like) = os_release_ids(ls.drop_last());
        let l = trim(ls.last(), Pat::Ws);
        if has_prefix(l, "#"@) || !l.contains('=') {
            (id, like)
        } else {
            let key = trim(key_part(l), Pat::Ws);
            if key == "ID"@ {
                (clean_value(value_part(l)), like)
            } else if key == "ID_LIKE"@ {
                (id, clean_value(value_part(l)))
            } else {
                (id, like)
            }
        }
    }
}

/// The family selected by the text of `/etc/os-release`.
pub open spec fn os_release_family(content: Seq<char>) -> Family {
    let (id, like) = os_release_ids(lines(content));
    family_of(id, like)
}

/// Splits a line at its first `=`.
fn split_at_eq(l: &Vec<char>) -> (r: (Vec<char>, Vec<char>))
    requires
        l@.contains('='),
    ensures
        r.0@ == key_part(l@),
        r.1@ == value_part(l@),
{
    let i = find_char(l, '=');
    match i {
        Some(i) => {
            proof {
                let j = choose|j: int|
                    0 <= j < l@.len() && l@[j] == '=' && forall|k: int| 0 <= k < j ==> l@[k] != '=';
                assert(j == i) by {
                    if j < i {
                        assert(l@[j] != '=');
                    }
                    if i < j {
                        assert(l@[i as int] != '=');
                    }
                }
            }
            (copy_range(l, 0, i), copy_range(l, i + 1, l.len()))
        },
        None => {
            assert(false);
            (Vec::new(), Vec::new())
        },
    }
}

fn clean_value_exec(v: &Vec<char>) -> (r: Vec<char>)
    ensures
        r@ == clean_value(v@),
{
    let a = trim_exec(v, Pat::Ws);
    let b = trim_exec(&a, Pat::Ch('"'));
    let c = trim_exec(&b, Pat::Ch('\''));
    let s = string_of(&c);
    let low = to_lowercase(s.as_str());
    chars_of(low.as_str())
}

/// Reads `ID` and `ID_LIKE` from the text of `/etc/os-release`.
pub fn parse_os_release(content: &str) -> (r: (Vec<char>, Vec<char>))
    ensures
        (r.0@, r.1@) == os_release_ids(lines(content@)),
{
    let v = chars_of(content);
    let ls = lines_exec(&v);
    let ghost g = lines(v@);
    let mut id: Vec<char> = Vec::new();
    let mut id_like: Vec<char> = Vec::new();
    let mut i: usize = 0;
    while i < ls.len()
        invariant
            i <= ls.len(),
            views_as(ls@, g),
            (id@, id_like@) == os_release_ids(g.take(i as int)),
        decreases ls.len() - i,
    {
        proof {
            assert(g.take(i + 1).drop_last() =~= g.take(i as int));
            assert(g.take(i + 1).last() == g[i as int]);
        }
        let line = trim_exec(&ls[i], Pat::Ws);
        if !starts_with_str(&line, "#") && contains_char(&line, '=') {
            let (k, val) = split_at_eq(&line);
            let key = trim_exec(&k, Pat::Ws);
            if chars_eq_str(&key, "ID") {
                id = clean_value_exec(&val);
            } else if chars_eq_str(&key, "ID_LIKE") {
                id_like = clean_value_exec(&val);
            }
        }
        i = i + 1;
    }
    assert(g.take(ls.len() as int) =~= g);
    (id, id_like)
}

/// A distribution as detected on the target.
pub enum DetectedDistro {
    Arch(ArchLinux),
    Debian(Debian),
    Fedora(Fedora),
    Unknown(UnknownDistro),
}

/// A detected distribution by its family, and the name of an unknown one.
pub enum DistroView {
    Arch,
    Debian,
    Fedora,
    Unknown(Seq<char>),
}

impl View for DetectedDistro {
    type V = DistroView;

    open spec fn view(&self) -> DistroView {
        match self {
            DetectedDistro::Arch(_) => DistroView::Arch,
            DetectedDistro::Debian(_) => DistroView::Debian,
            DetectedDistro::Fedora(_) => DistroView::Fedora,
            DetectedDistro::Unknown(u) => DistroView::Unknown(u.detected_name@),
        }
    }
}

/// The distribution that the text of `/etc/os-release` (`None`: unreadable) identifies.
pub open spec fn spec_detect(os_release: Option<Seq<char>>) -> DistroView {
    match os_release {
        None => DistroView::Unknown("Generic Linux Environment"@),
        Some(c) => match os_release_family(c) {
            Family::Arch => DistroView::Arch,
            Family::Debian => DistroView::Debian,
            Family::Fedora => DistroView::Fedora,
            Family::Other => DistroView::Unknown(unknown_name(Some(c))),
        },
    }
}

/// Identifies the distribution from the text of `/etc/os-release` inside the
/// target root; `None` when the file is missing or unreadable.
pub fn detect(os_release: Option<&str>) -> (r: DetectedDistro)
    ensures
        r@ == spec_detect(
            match os_release {
                Some(s) => Some(s@),
                None => None,
            },
        ),
        match os_release {
            None => r matches DetectedDistro::Unknown(u) && u.detected_name@
                == "Generic Linux Environment"@,
            Some(c) => match os_release_family(c@) {
                Family::Arch => r is Arch,
                Family::Debian => r is Debian,
                Family::Fedora => r is Fedora,
                Family::Other => r matches DetectedDistro::Unknown(u) && u.detected_name@
                    == unknown_name(Some(c@)),
            },
        },
{
    match os_release {
        None => DetectedDistro::Unknown(UnknownDistro::new(None)),
        Some(content) => {
            let (id, id_like) = parse_os_release(content);
            match family_from_ids(&id, &id_like) {
                Family::Arch => DetectedDistro::Arch(ArchLinux),
                Family::Debian => DetectedDistro::Debian(Debian),
                Family::Fedora => DetectedDistro::Fedora(Fedora),
                Family::Other => DetectedDistro::Unknown(UnknownDistro::new(Some(content))),
            }
        },
    }
}

impl Distro for DetectedDistro {
    open spec fn spec_name(&self) -> Seq<char> {
        match self {
            DetectedDistro::Arch(d) => d.spec_name(),
            DetectedDistro::Debian(d) => d.spec_name(),
            DetectedDistro::Fedora(d) => d.spec_name(),
            DetectedDistro::Unknown(d) => d.spec_name(),
        }
    }

    open spec fn spec_grub_config_path(&self) -> Seq<char> {
        match self {
            DetectedDistro::Arch(d) => d.spec_grub_config_path(),
            DetectedDistro::Debian(d) => d.spec_grub_config_path(),
            DetectedDistro::Fedora(d) => d.spec_grub_config_path(),
            DetectedDistro::Unknown(d) => d.spec_grub_config_path(),
        }
    }

    open spec fn spec_initramfs_cmd(&self) -> Seq<Seq<char>> {
        match self {
            DetectedDistro::Arch(d) => d.spec_initramfs_cmd(),
            DetectedDistro::Debian(d) => d.spec_initramfs_cmd(),
            DetectedDistro::Fedora(d) => d.spec_initramfs_cmd(),
            DetectedDistro::Unknown(d) => d.spec_initramfs_cmd(),
        }
    }

    open spec fn spec_post_grub_hook(&self) -> Option<Seq<char>> {
        match self {
            DetectedDistro::Arch(d) => d.spec_post_grub_hook(),
            DetectedDistro::Debian(d) => d.spec_post_grub_hook(),
            DetectedDistro::Fedora(d) => d.spec_post_grub_hook(),
            DetectedDistro::Unknown(d) => d.spec_post_grub_hook(),
        }
    }

    open spec fn spec_grub_install_bin(&self) -> Seq<char> {
        match self {
            DetectedDistro::Arch(d) => d.spec_grub_install_bin(),
            DetectedDistro::Debian(d) => d.spec_grub_install_bin(),
            DetectedDistro::Fedora(d) => d.spec_grub_install_bin(),
            DetectedDistro::Unknown(d) => d.spec_grub_install_bin(),
        }
    }

    open spec fn spec_grub_mkconfig_bin(&self) -> Seq<char> {
        match self {
            DetectedDistro::Arch(d) => d.spec_grub_mkconfig_bin(),
            DetectedDistro::Debian(d) => d.spec_grub_mkconfig_bin(),
            DetectedDistro::Fedora(d) => d.spec_grub_mkconfig_bin(),
            DetectedDistro::Unknown(d) => d.spec_grub_mkconfig_bin(),
        }
    }

    fn name(&self) -> (r: &str) {
        match self {
            DetectedDistro::Arch(d) => d.name(),
            DetectedDistro::Debian(d) => d.name(),
            DetectedDistro::Fedora(d) => d.name(),
            DetectedDistro::Unknown(d) => d.name(),
        }
    }

    fn grub_config_path(&self) -> (r: &'static str) {
        match self {
            DetectedDistro::Arch(d) => d.grub_config_path(),
            DetectedDistro::Debian(d) => d.grub_config_path(),
            DetectedDistro::Fedora(d) => d.grub_config_path(),
            DetectedDistro::Unknown(d) => d.grub_config_path(),
        }
    }

    fn initramfs_cmd(&self) -> (r: Vec<&'static str>) {
        match self {
            DetectedDistro::Arch(d) => d.initramfs_cmd(),
            DetectedDistro::Debian(d) => d.initramfs_cmd(),
            DetectedDistro::Fedora(d) => d.initramfs_cmd(),
            DetectedDistro::Unknown(d) => d.initramfs_cmd(),
        }
    }

    fn post_grub_hook(&self) -> (r: Option<&'static str>) {
        match self {
            DetectedDistro::Arch(d) => d.post_grub_hook(),
            DetectedDistro::Debian(d) => d.post_grub_hook(),
            DetectedDistro::Fedora(d) => d.post_grub_hook(),
            DetectedDistro::Unknown(d) => d.post_grub_hook(),
        }
    }

    fn grub_install_bin(&self) -> (r: &'static str) {
        match self {
            DetectedDistro::Arch(d) => d.grub_install_bin(),
            DetectedDistro::Debian(d) => d.grub_install_bin(),
            DetectedDistro::Fedora(d) => d.grub_install_bin(),
            DetectedDistro::Unknown(d) => d.grub_install_bin(),
        }
    }

    fn grub_mkconfig_bin(&self) -> (r: &'static str) {
        match self {
            DetectedDistro::Arch(d) => d.grub_mkconfig_bin(),
            DetectedDistro::Debian(d) => d.grub_mkconfig_bin(),
            DetectedDistro::Fedora(d) => d.grub_mkconfig_bin(),
            DetectedDistro::Unknown(d) => d.grub_mkconfig_bin(),
        }
    }

    fn default_grub_file_path(&self) -> (r: &'static str) {
        "etc/default/grub"
    }
}

} // verus!
