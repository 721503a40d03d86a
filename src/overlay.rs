use vstd::prelude::*;

use crate::mount::no_flags;
use crate::steps::{push_step, strings_view, views, Action, ErrorKind, MountFlags, OnFailure, Op, Step};

verus! {

/// The entries of `parts` separated by `:`.
pub open spec fn join_colon(parts: Seq<Seq<char>>) -> Seq<char>
    decreases parts.len(),
{
    if parts.len() == 0 {
        seq![]
    } else if parts.len() == 1 {
        parts[0]
    } else {
        join_colon(parts.drop_last()) + seq![':'] + parts.last()
    }
}

/// The lower layers in the order the kernel takes them, topmost first: the
/// image and then the extra layers, reversed, so that the image is the
/// bottom-most layer.
pub open spec fn lower_layers(image: Seq<char>, extras: Seq<Seq<char>>) -> Seq<Seq<char>> {
    (seq![image] + extras).reverse()
}

/// The `lowerdir` option of the overlay mount.
pub open spec fn lowerdir(image: Seq<char>, extras: Seq<Seq<char>>) -> Seq<char> {
    join_colon(lower_layers(image, extras))
}

pub open spec fn extras_view(extras: Option<Vec<String>>) -> Seq<Seq<char>> {
    match extras {
        Some(v) => strings_view(v@),
        None => seq![],
    }
}

/// The upper layer of an overlay: a scratch directory owned by the overlay
/// and removed on cleanup, or a directory of the caller that persists.
#[derive(Debug, Clone)]
pub enum UpperDir {
    Ephemeral(String),
    Persistent(String),
}

impl UpperDir {
    pub open spec fn path(&self) -> Seq<char> {
        match self {
            UpperDir::Ephemeral(p) => p@,
            UpperDir::Persistent(p) => p@,
        }
    }
}

/// An overlay root: one image as the bottom layer, extra read-only layers
/// above it, an upper layer, and the work and merged scratch directories.
pub struct OverlayFsManager {
    pub image_path: String,
    pub extra_layers: Option<Vec<String>>,
    pub upper: UpperDir,
    pub temp_work: String,
    pub temp_merged: String,
}

pub open spec fn overlay_error() -> OnFailure {
    OnFailure::Abort(ErrorKind::OverlayFs)
}

impl OverlayFsManager {
    /// The layers below the upper one, as the kernel takes them.
    pub open spec fn spec_lowerdir(&self) -> Seq<char> {
        lowerdir(self.image_path@, extras_view(self.extra_layers))
    }

    /// The options of the overlay mount.
    pub open spec fn spec_options(&self) -> Seq<char> {
        "lowerdir="@ + self.spec_lowerdir() + ",upperdir="@ + self.upper.path() + ",workdir="@
            + self.temp_work@
    }

    /// The overlay mount at the merged directory.
    pub open spec fn setup_steps(&self) -> Seq<(Action, OnFailure)> {
        seq![
            (
                Action::Mount {
                    source: Some("overlay"@),
                    target: self.temp_merged@,
                    fstype: Some("overlay"@),
                    flags: no_flags(),
                    data: Some(self.spec_options()),
                },
                overlay_error(),
            ),
        ]
    }

    /// The scratch directories removed: the ephemeral upper layer if there
    /// is one, then work, then merged. A persistent upper layer stays.
    pub open spec fn cleanup_steps(&self) -> Seq<(Action, OnFailure)> {
        (match self.upper {
            UpperDir::Ephemeral(p) => seq![(Action::RemoveDirAll(p@), overlay_error())],
            UpperDir::Persistent(_) => seq![],
        }) + seq![
            (Action::RemoveDirAll(self.temp_work@), overlay_error()),
            (Action::RemoveDirAll(self.temp_merged@), overlay_error()),
        ]
    }

    /// Whether an overlay with this persistence path needs an ephemeral
    /// scratch directory as its upper layer.
    pub fn needs_temp_upper(persist_path: &Option<String>) -> (r: bool)
        ensures
            r == persist_path.is_none(),
    {
        persist_path.is_none()
    }

    /// Captures an overlay configuration with its freshly created scratch
    /// directories; `temp_upper` is there exactly when no persistence path
    /// is given, and becomes the upper layer then.
    pub fn new(
        image_path: String,
        extra_layers: Option<Vec<String>>,
        persist_path: Option<String>,
        temp_upper: Option<String>,
        temp_work: String,
        temp_merged: String,
    ) -> (r: Self)
        requires
            persist_path.is_none() == temp_upper.is_some(),
        ensures
            r.image_path == image_path,
            r.extra_layers == extra_layers,
            r.upper == match persist_path {
                Some(p) => UpperDir::Persistent(p),
                None => UpperDir::Ephemeral(temp_upper.unwrap()),
            },
            r.temp_work == temp_work,
            r.temp_merged == temp_merged,
    {
        let upper = match persist_path {
            Some(p) => UpperDir::Persistent(p),
            None => UpperDir::Ephemeral(temp_upper.unwrap()),
        };
        OverlayFsManager { image_path, extra_layers, upper, temp_work, temp_merged }
    }

    /// The directory that becomes the container's root.
    pub fn get_final_root(&self) -> (r: String)
        ensures
            r@ == self.temp_merged@,
    {
        self.temp_merged.clone()
    }

    /// The `lowerdir` option: the image and the extra layers, reversed, and
    /// joined by `:`.
    pub fn lowerdir_option(&self) -> (r: String)
        ensures
            r@ == self.spec_lowerdir(),
    {
        proof {
            reveal_strlit(":");
        }
        let empty: Vec<String> = Vec::new();
        let layers: &Vec<String> = match &self.extra_layers {
            Some(v) => v,
            None => &empty,
        };
        let ghost image = self.image_path@;
        let ghost extras = strings_view(layers@);
        let ghost entries = lower_layers(image, extras);
        assert(extras == extras_view(self.extra_layers));
        let n = layers.len();
        assert(entries.len() == n + 1);
        let mut s = String::new();
        let mut k: usize = 0;
        assert(entries.take(0) =~= Seq::<Seq<char>>::empty());
        while k < n
            invariant
                k <= n,
                n == layers@.len(),
                extras == strings_view(layers@),
                entries == lower_layers(image, extras),
                entries.len() == n + 1,
                s@ == join_colon(entries.take(k as int)),
                ":"@ == seq![':'],
            decreases n - k,
        {
            assert(entries[k as int] == extras[n - 1 - k]);
            let ghost prev = s@;
            if k > 0 {
                s.append(":");
                assert(s@ =~= prev + seq![':']);
            }
            s.append(layers[n - 1 - k].as_str());
            assert(k > 0 ==> s@ =~= prev + seq![':'] + layers@[n - 1 - k]@);
            assert(entries.take(k + 1).drop_last() =~= entries.take(k as int));
            assert(entries.take(k + 1).last() == layers@[n - 1 - k]@);
            assert(k == 0 ==> s@ =~= join_colon(entries.take(k + 1)));
            assert(k > 0 ==> join_colon(entries.take(k + 1)) == join_colon(entries.take(k as int))
                + seq![':'] + layers@[n - 1 - k]@);
            assert(s@ =~= join_colon(entries.take(k + 1)));
            k += 1;
        }
        assert(entries[n as int] == image);
        if n > 0 {
            s.append(":");
        }
        s.append(self.image_path.as_str());
        assert(entries.take(n + 1).drop_last() =~= entries.take(n as int));
        assert(entries.take(n + 1) =~= entries);
        assert(n == 0 ==> s@ =~= join_colon(entries));
        assert(n > 0 ==> join_colon(entries.take(n + 1)) == join_colon(entries.take(n as int))
            + seq![':'] + image);
        assert(s@ =~= join_colon(entries));
        s
    }

    fn upper_path(&self) -> (r: &String)
        ensures
            r@ == self.upper.path(),
    {
        match &self.upper {
            UpperDir::Ephemeral(p) => p,
            UpperDir::Persistent(p) => p,
        }
    }

    /// The overlay mount at the merged directory, with the lower layers,
    /// the upper layer and the work directory as options and no flags.
    pub fn setup(&self) -> (r: Vec<Step>)
        ensures
            views(r@) == self.setup_steps(),
    {
        let options = String::from_str("lowerdir=").concat(self.lowerdir_option().as_str()).concat(
            ",upperdir=",
        ).concat(self.upper_path().as_str()).concat(",workdir=").concat(self.temp_work.as_str());
        let op = Op::Mount {
            source: Some(String::from_str("overlay")),
            target: self.temp_merged.clone(),
            fstype: Some(String::from_str("overlay")),
            flags: MountFlags { bind: false, recursive: false, readonly: false, private: false },
            data: Some(options),
        };
        let mut steps: Vec<Step> = Vec::new();
        push_step(&mut steps, Step::new(op, overlay_error_exec(), "Failed to mount overlayfs"));
        assert(views(steps@) =~= self.setup_steps());
        steps
    }

    /// Removal of the scratch directories. The overlay itself is not
    /// unmounted: it goes away with the mount namespace it was made in.
    pub fn cleanup(&self) -> (r: Vec<Step>)
        ensures
            views(r@) == self.cleanup_steps(),
    {
        let mut steps: Vec<Step> = Vec::new();
        match &self.upper {
            UpperDir::Ephemeral(p) => {
                let op = Op::RemoveDirAll(p.clone());
                push_step(&mut steps, Step::new(op, overlay_error_exec(), "Failed to remove temp upper dir"));
            },
            UpperDir::Persistent(_) => {},
        }
        let work = Op::RemoveDirAll(self.temp_work.clone());
        push_step(&mut steps, Step::new(work, overlay_error_exec(), "Failed to remove temp work dir"));
        let merged = Op::RemoveDirAll(self.temp_merged.clone());
        push_step(&mut steps, Step::new(merged, overlay_error_exec(), "Failed to remove temp merged dir"));
        assert(views(steps@) =~= self.cleanup_steps());
        steps
    }
}

/// How many times `c` occurs in `s`.
pub open spec fn count_char(s: Seq<char>, c: char) -> nat
    decreases s.len(),
{
    if s.len() == 0 {
        0
    } else {
        count_char(s.drop_last(), c) + if s.last() == c {
            1nat
        } else {
            0nat
        }
    }
}

proof fn lemma_count_concat(a: Seq<char>, b: Seq<char>, c: char)
    ensures
        count_char(a + b, c) == count_char(a, c) + count_char(b, c),
    decreases b.len(),
{
    if b.len() > 0 {
        assert((a + b).drop_last() =~= a + b.drop_last());
        lemma_count_concat(a, b.drop_last(), c);
    } else {
        assert(a + b =~= a);
    }
}

proof fn lemma_count_absent(s: Seq<char>, c: char)
    requires
        !s.contains(c),
    ensures
        count_char(s, c) == 0,
    decreases s.len(),
{
    if s.len() > 0 {
        assert(s.drop_last().contains(c) ==> s.contains(c));
        lemma_count_absent(s.drop_last(), c);
    }
}

proof fn lemma_join_colon_count(parts: Seq<Seq<char>>)
    requires
        parts.len() > 0,
        forall|i: int| 0 <= i < parts.len() ==> !(#[trigger] parts[i]).contains(':'),
    ensures
        count_char(join_colon(parts), ':') + 1 == parts.len(),
    decreases parts.len(),
{
    if parts.len() == 1 {
        lemma_count_absent(parts[0], ':');
    } else {
        let front = parts.drop_last();
        assert forall|i: int| 0 <= i < front.len() implies !(#[trigger] front[i]).contains(':') by {
            assert(front[i] == parts[i]);
        }
        lemma_join_colon_count(front);
        lemma_count_concat(join_colon(front), seq![':'], ':');
        lemma_count_concat(join_colon(front) + seq![':'], parts.last(), ':');
        assert(!parts[parts.len() - 1].contains(':'));
        lemma_count_absent(parts.last(), ':');
        assert(seq![':'].drop_last() =~= Seq::<char>::empty());
        assert(count_char(Seq::<char>::empty(), ':') == 0);
        assert(count_char(seq![':'], ':') == 1);
    }
}

/// With `n` extra layers, the `lowerdir` option lists `n + 1` layers: it
/// has `n` separators when no path holds a `:`, and it is the extra layers
/// in reverse followed by the image, the bottom-most layer.
pub proof fn lemma_lowerdir_layers(image: Seq<char>, extras: Seq<Seq<char>>)
    requires
        !image.contains(':'),
        forall|i: int| 0 <= i < extras.len() ==> !(#[trigger] extras[i]).contains(':'),
    ensures
        count_char(lowerdir(image, extras), ':') == extras.len(),
        extras.len() == 0 ==> lowerdir(image, extras) == image,
        extras.len() > 0 ==> lowerdir(image, extras) == join_colon(extras.reverse()) + seq![':']
            + image,
{
    let layers = lower_layers(image, extras);
    let all = seq![image] + extras;
    assert(layers.len() == extras.len() + 1);
    assert(layers.last() == image);
    assert forall|i: int| 0 <= i < layers.len() implies !(#[trigger] layers[i]).contains(':') by {
        assert(layers[i] == all[all.len() - 1 - i]);
        if all.len() - 1 - i > 0 {
            assert(all[all.len() - 1 - i] == extras[all.len() - 2 - i]);
        }
    }
    lemma_join_colon_count(layers);
    if extras.len() > 0 {
        assert(layers.drop_last() =~= extras.reverse());
    } else {
        assert(layers =~= seq![image]);
    }
}

/// An empty list of extra layers gives the same overlay as no list.
pub proof fn lemma_empty_extras(o: OverlayFsManager, empty: Vec<String>)
    requires
        empty@.len() == 0,
    ensures
        (OverlayFsManager { extra_layers: Some(empty), ..o }).setup_steps() == (OverlayFsManager {
            extra_layers: None,
            ..o
        }).setup_steps(),
        (OverlayFsManager { extra_layers: Some(empty), ..o }).cleanup_steps() == (OverlayFsManager {
            extra_layers: None,
            ..o
        }).cleanup_steps(),
{
    assert(extras_view(Some(empty)) =~= extras_view(None));
}

/// The upper layer's lifetime: without a persistence path an ephemeral
/// upper layer is made and cleanup removes it with the other scratch
/// directories; with one, that directory is the upper layer and cleanup
/// removes only work and merged.
pub proof fn lemma_upper_lifecycle(o: OverlayFsManager, persist_path: Option<String>, temp_upper: Option<String>)
    requires
        persist_path.is_none() == temp_upper.is_some(),
        o.upper == match persist_path {
            Some(p) => UpperDir::Persistent(p),
            None => UpperDir::Ephemeral(temp_upper.unwrap()),
        },
    ensures
        persist_path.is_none() ==> o.cleanup_steps() == seq![
            (Action::RemoveDirAll(temp_upper.unwrap()@), overlay_error()),
            (Action::RemoveDirAll(o.temp_work@), overlay_error()),
            (Action::RemoveDirAll(o.temp_merged@), overlay_error()),
        ],
        persist_path.is_some() ==> o.upper.path() == persist_path.unwrap()@ && o.cleanup_steps()
            == seq![
            (Action::RemoveDirAll(o.temp_work@), overlay_error()),
            (Action::RemoveDirAll(o.temp_merged@), overlay_error()),
        ],
{
    if persist_path.is_none() {
        assert(o.cleanup_steps() =~= seq![
            (Action::RemoveDirAll(temp_upper.unwrap()@), overlay_error()),
            (Action::RemoveDirAll(o.temp_work@), overlay_error()),
            (Action::RemoveDirAll(o.temp_merged@), overlay_error()),
        ]);
    } else {
        assert(o.cleanup_steps() =~= seq![
            (Action::RemoveDirAll(o.temp_work@), overlay_error()),
            (Action::RemoveDirAll(o.temp_merged@), overlay_error()),
        ]);
    }
}

/// Removal, best-effort, of each of `dirs`.
pub open spec fn removals(dirs: Seq<String>) -> Seq<(Action, OnFailure)> {
    dirs.map_values(|d: String| (Action::RemoveDirAll(d@), OnFailure::Warn))
}

/// What to undo when making the scratch directories of an overlay failed
/// part way: remove, best-effort, the ones already made (`created`).
pub fn release_created(created: &Vec<String>) -> (r: Vec<Step>)
    ensures
        views(r@) == removals(created@),
{
    let mut steps: Vec<Step> = Vec::new();
    let n = created.len();
    let mut i: usize = 0;
    while i < n
        invariant
            i <= n,
            n == created@.len(),
            views(steps@) == removals(created@.take(i as int)),
        decreases n - i,
    {
        let op = Op::RemoveDirAll(created[i].clone());
        push_step(&mut steps, Step::new(op, OnFailure::Warn, "Failed to remove scratch dir"));
        assert(removals(created@.take(i + 1)) =~= removals(created@.take(i as int)).push(
            (Action::RemoveDirAll(created@[i as int]@), OnFailure::Warn),
        ));
        i += 1;
    }
    assert(created@.take(n as int) =~= created@);
    steps
}

fn overlay_error_exec() -> (r: OnFailure)
    ensures
        r == overlay_error(),
{
    OnFailure::Abort(ErrorKind::OverlayFs)
}

} // verus!
