//! Paths taken apart into their components, and one path as seen from another.

use crate::paths::{is_absolute, join, joined};
use crate::seqs::{last_index, lemma_last_index_step};
use crate::text::same;
use vstd::prelude::*;
use vstd::string::*;

verus! {

/// One component of a path.
#[derive(Debug)]
pub enum Component {
    /// The root of the file system, a leading `/`.
    RootDir,
    /// The directory itself, `.`.
    CurDir,
    /// The directory above, `..`.
    ParentDir,
    /// A file or directory name.
    Normal(String),
}

/// Mathematical content of a `Component`.
pub ghost enum ComponentView {
    RootDir,
    CurDir,
    ParentDir,
    Normal(Seq<char>),
}

impl View for Component {
    type V = ComponentView;

    open spec fn view(&self) -> ComponentView {
        match self {
            Component::RootDir => ComponentView::RootDir,
            Component::CurDir => ComponentView::CurDir,
            Component::ParentDir => ComponentView::ParentDir,
            Component::Normal(name) => ComponentView::Normal(name@),
        }
    }
}

impl ComponentView {
    /// The component as it is written in a path.
    pub open spec fn text(self) -> Seq<char> {
        match self {
            ComponentView::RootDir => seq!['/'],
            ComponentView::CurDir => seq!['.'],
            ComponentView::ParentDir => seq!['.', '.'],
            ComponentView::Normal(name) => name,
        }
    }
}

/// The content of each component.
pub open spec fn component_views(list: Seq<Component>) -> Seq<ComponentView> {
    list.map_values(|c: Component| c@)
}

/// A path cut at each `/`: the pieces before the last `/`, and the piece after it.
pub open spec fn pieces(path: Seq<char>) -> (Seq<Seq<char>>, Seq<char>)
    decreases path.len(),
{
    if path.len() == 0 {
        (Seq::empty(), Seq::empty())
    } else {
        let before = pieces(path.drop_last());
        if path.last() == '/' {
            (before.0.push(before.1), Seq::empty())
        } else {
            (before.0, before.1.push(path.last()))
        }
    }
}

/// What a piece of a path contributes to its components: nothing where it is empty,
/// or where it is `.` and not the first piece; else the directory itself, the
/// directory above, or a name.
pub open spec fn piece_component(piece: Seq<char>, first: bool) -> Option<ComponentView> {
    if piece.len() == 0 {
        None
    } else if piece == seq!['.'] {
        if first {
            Some(ComponentView::CurDir)
        } else {
            None
        }
    } else if piece == seq!['.', '.'] {
        Some(ComponentView::ParentDir)
    } else {
        Some(ComponentView::Normal(piece))
    }
}

/// `list`, with the component added if there is one.
pub open spec fn with_component(list: Seq<ComponentView>, c: Option<ComponentView>) -> Seq<
    ComponentView,
> {
    match c {
        Some(c) => list.push(c),
        None => list,
    }
}

/// The components that the first `count` pieces contribute, in their order.
pub open spec fn piece_components(all: Seq<Seq<char>>, count: int) -> Seq<ComponentView>
    decreases count,
{
    if count <= 0 {
        Seq::empty()
    } else {
        with_component(
            piece_components(all, count - 1),
            piece_component(all[count - 1], count == 1),
        )
    }
}

/// The components of a path: the root where the path is absolute, then what each
/// piece between the `/` contributes. Repeated and trailing `/` count for nothing,
/// and neither does a `.` other than at the start of a relative path.
pub open spec fn components_of(path: Seq<char>) -> Seq<ComponentView> {
    let cut = pieces(path);
    let all = cut.0.push(cut.1);
    let root = if is_absolute(path) {
        seq![ComponentView::RootDir]
    } else {
        Seq::empty()
    };
    root + piece_components(all, all.len() as int)
}

/// The path written from components, each joined to what stands before it.
pub open spec fn rendered(list: Seq<ComponentView>) -> Seq<char>
    decreases list.len(),
{
    if list.len() == 0 {
        Seq::empty()
    } else {
        joined(rendered(list.drop_last()), list.last().text())
    }
}

/// As many times the directory above.
pub open spec fn parents(count: nat) -> Seq<ComponentView> {
    Seq::new(count, |i: int| ComponentView::ParentDir)
}

/// The components that lead from `from` to `path`, where `done` stands for what was
/// found so far. Components shared at the start are dropped while nothing was found
/// yet. After that each component left of `from` is one step up, and the rest of
/// `path` follows; there is no way through a `..` in `from`, and a `.` in `from` is
/// stepped over together with the component of `path` that stands against it.
pub open spec fn relative_components(
    path: Seq<ComponentView>,
    from: Seq<ComponentView>,
    done: Seq<ComponentView>,
) -> Option<Seq<ComponentView>>
    decreases path.len() + from.len(),
{
    if path.len() == 0 && from.len() == 0 {
        Some(done)
    } else if from.len() == 0 {
        Some(done + path)
    } else if path.len() == 0 {
        relative_components(path, from.drop_first(), done.push(ComponentView::ParentDir))
    } else if done.len() == 0 && path[0] == from[0] {
        relative_components(path.drop_first(), from.drop_first(), done)
    } else if from[0] == ComponentView::CurDir {
        relative_components(path.drop_first(), from.drop_first(), done.push(path[0]))
    } else if from[0] == ComponentView::ParentDir {
        None
    } else {
        Some(done + parents(from.len()) + path)
    }
}

/// `path` as seen from the directory `from`. Where only one of the two is absolute,
/// an absolute `path` is kept as it is and a relative one cannot be expressed.
pub open spec fn relative_path(path: Seq<char>, from: Seq<char>) -> Option<Seq<char>> {
    if is_absolute(path) != is_absolute(from) {
        if is_absolute(path) {
            Some(path)
        } else {
            None
        }
    } else {
        match relative_components(components_of(path), components_of(from), Seq::empty()) {
            Some(list) => Some(rendered(list)),
            None => None,
        }
    }
}

fn starts_at_root(path: &str) -> (absolute: bool)
    ensures
        absolute == is_absolute(path@),
{
    path.unicode_len() > 0 && path.get_char(0) == '/'
}

fn component_of_piece(piece: &str, first: bool) -> (c: Option<Component>)
    ensures
        match c {
            Some(c) => piece_component(piece@, first) == Some(c@),
            None => piece_component(piece@, first) is None,
        },
{
    proof {
        reveal_strlit(".");
        reveal_strlit("..");
        assert("."@ =~= seq!['.']);
        assert(".."@ =~= seq!['.', '.']);
    }
    if piece.unicode_len() == 0 {
        None
    } else if same(piece, ".") {
        if first {
            Some(Component::CurDir)
        } else {
            None
        }
    } else if same(piece, "..") {
        Some(Component::ParentDir)
    } else {
        Some(Component::Normal(String::from_str(piece)))
    }
}

/// The components of a path.
pub fn components(path: &str) -> (list: Vec<Component>)
    ensures
        component_views(list@) == components_of(path@),
{
    let n = path.unicode_len();
    let mut list: Vec<Component> = Vec::new();
    if starts_at_root(path) {
        list.push(Component::RootDir);
    }
    let ghost root = component_views(list@);
    assert(root =~= if is_absolute(path@) {
        seq![ComponentView::RootDir]
    } else {
        Seq::empty()
    });
    let mut start: usize = 0;
    let mut count: usize = 0;
    let mut i: usize = 0;
    assert(path@.take(0) =~= Seq::<char>::empty());
    assert(path@.subrange(0, 0) =~= Seq::<char>::empty());
    while i < n
        invariant
            n == path@.len(),
            start <= i <= n,
            count <= i,
            pieces(path@.take(i as int)).0.len() == count,
            pieces(path@.take(i as int)).1 == path@.subrange(start as int, i as int),
            component_views(list@) == root + piece_components(
                pieces(path@.take(i as int)).0,
                count as int,
            ),
        decreases n - i,
    {
        let ghost before = pieces(path@.take(i as int));
        let ghost listed = component_views(list@);
        proof {
            assert(path@.take(i + 1).drop_last() =~= path@.take(i as int));
            assert(path@.take(i + 1).last() == path@[i as int]);
        }
        if path.get_char(i) == '/' {
            let piece = path.substring_char(start, i);
            match component_of_piece(piece, count == 0) {
                Some(c) => {
                    list.push(c);
                    assert(component_views(list@) =~= listed.push(c@));
                },
                None => {},
            }
            proof {
                let after = pieces(path@.take(i + 1));
                assert(after.0 == before.0.push(before.1));
                lemma_piece_components_prefix(before.0, after.0, count as int);
                assert(after.0[count as int] == before.1);
                assert(path@.subrange(i + 1, i + 1) =~= Seq::<char>::empty());
            }
            start = i + 1;
            count = count + 1;
        } else {
            proof {
                assert(path@.subrange(start as int, i + 1) =~= path@.subrange(
                    start as int,
                    i as int,
                ).push(path@[i as int]));
            }
        }
        i += 1;
    }
    assert(path@.take(n as int) =~= path@);
    let ghost cut = pieces(path@);
    let ghost listed = component_views(list@);
    let piece = path.substring_char(start, n);
    match component_of_piece(piece, count == 0) {
        Some(c) => {
            list.push(c);
            assert(component_views(list@) =~= listed.push(c@));
        },
        None => {},
    }
    proof {
        let all = cut.0.push(cut.1);
        lemma_piece_components_prefix(cut.0, all, count as int);
        assert(all[count as int] == cut.1);
    }
    list
}

/// The components of the first pieces do not depend on the pieces that follow.
proof fn lemma_piece_components_prefix(short: Seq<Seq<char>>, long: Seq<Seq<char>>, count: int)
    requires
        0 <= count <= short.len() <= long.len(),
        forall|k: int| 0 <= k < short.len() ==> short[k] == long[k],
    ensures
        piece_components(short, count) == piece_components(long, count),
    decreases count,
{
    if count > 0 {
        lemma_piece_components_prefix(short, long, count - 1);
    }
}

impl Clone for Component {
    fn clone(&self) -> (copy: Self)
        ensures
            copy == *self,
    {
        match self {
            Component::RootDir => Component::RootDir,
            Component::CurDir => Component::CurDir,
            Component::ParentDir => Component::ParentDir,
            Component::Normal(name) => Component::Normal(name.clone()),
        }
    }
}

impl Component {
    /// Whether two components are the same.
    pub fn same_as(&self, other: &Component) -> (equal: bool)
        ensures
            equal == (self@ == other@),
    {
        match (self, other) {
            (Component::RootDir, Component::RootDir) => true,
            (Component::CurDir, Component::CurDir) => true,
            (Component::ParentDir, Component::ParentDir) => true,
            (Component::Normal(a), Component::Normal(b)) => same(a.as_str(), b.as_str()),
            _ => false,
        }
    }

    /// The component as it is written in a path.
    pub fn as_str(&self) -> (text: &str)
        ensures
            text@ == self@.text(),
    {
        proof {
            reveal_strlit("/");
            reveal_strlit(".");
            reveal_strlit("..");
            assert("/"@ =~= seq!['/']);
            assert("."@ =~= seq!['.']);
            assert(".."@ =~= seq!['.', '.']);
        }
        match self {
            Component::RootDir => "/",
            Component::CurDir => ".",
            Component::ParentDir => "..",
            Component::Normal(name) => name.as_str(),
        }
    }
}

/// Writes components out as a path.
pub fn render(list: &Vec<Component>) -> (path: String)
    ensures
        path@ == rendered(component_views(list@)),
{
    let mut path = String::new();
    let mut i: usize = 0;
    assert(component_views(list@).take(0) =~= Seq::<ComponentView>::empty());
    while i < list.len()
        invariant
            i <= list.len(),
            path@ == rendered(component_views(list@).take(i as int)),
        decreases list.len() - i,
    {
        proof {
            let grown = component_views(list@).take(i + 1);
            assert(grown.drop_last() =~= component_views(list@).take(i as int));
            assert(grown.last() == list@[i as int]@);
        }
        path = join(path.as_str(), list[i].as_str());
        i += 1;
    }
    assert(component_views(list@).take(i as int) =~= component_views(list@));
    path
}

fn push_parents(done: &mut Vec<Component>, count: usize)
    ensures
        component_views(final(done)@) == component_views(old(done)@) + parents(count as nat),
{
    let mut k: usize = 0;
    assert(component_views(done@) =~= component_views(old(done)@) + parents(0));
    while k < count
        invariant
            k <= count,
            component_views(done@) == component_views(old(done)@) + parents(k as nat),
        decreases count - k,
    {
        let ghost before = done@;
        done.push(Component::ParentDir);
        assert(component_views(done@) =~= component_views(before).push(ComponentView::ParentDir));
        k += 1;
        assert(component_views(done@) =~= component_views(old(done)@) + parents(k as nat));
    }
}

fn push_rest(done: &mut Vec<Component>, list: &Vec<Component>, at: usize)
    requires
        at <= list.len(),
    ensures
        component_views(final(done)@) == component_views(old(done)@) + component_views(list@).skip(
            at as int,
        ),
{
    let mut k: usize = at;
    assert(component_views(done@) =~= component_views(old(done)@) + component_views(
        list@,
    ).subrange(at as int, k as int));
    while k < list.len()
        invariant
            at <= k <= list.len(),
            component_views(done@) == component_views(old(done)@) + component_views(
                list@,
            ).subrange(at as int, k as int),
        decreases list.len() - k,
    {
        let ghost before = done@;
        done.push(list[k].clone());
        assert(component_views(done@) =~= component_views(before).push(list@[k as int]@));
        k += 1;
        assert(component_views(done@) =~= component_views(old(done)@) + component_views(
            list@,
        ).subrange(at as int, k as int));
    }
    assert(component_views(list@).subrange(at as int, k as int) =~= component_views(list@).skip(
        at as int,
    ));
}

/// The content of an optional list of components.
pub open spec fn components_option_view(list: Option<Vec<Component>>) -> Option<
    Seq<ComponentView>,
> {
    match list {
        Some(list) => Some(component_views(list@)),
        None => None,
    }
}

fn relative_walk(
    path: &Vec<Component>,
    at: usize,
    from: &Vec<Component>,
    from_at: usize,
    done: Vec<Component>,
) -> (found: Option<Vec<Component>>)
    requires
        at <= path.len(),
        from_at <= from.len(),
    ensures
        components_option_view(found) == relative_components(
            component_views(path@).skip(at as int),
            component_views(from@).skip(from_at as int),
            component_views(done@),
        ),
    decreases (path.len() - at) + (from.len() - from_at),
{
    let ghost p = component_views(path@).skip(at as int);
    let ghost f = component_views(from@).skip(from_at as int);
    let mut done = done;
    let ghost given = component_views(done@);
    proof {
        if at < path.len() {
            assert(p.drop_first() =~= component_views(path@).skip(at + 1));
            assert(p[0] == path@[at as int]@);
        }
        if from_at < from.len() {
            assert(f.drop_first() =~= component_views(from@).skip(from_at + 1));
            assert(f[0] == from@[from_at as int]@);
        }
    }
    if at == path.len() && from_at == from.len() {
        Some(done)
    } else if from_at == from.len() {
        push_rest(&mut done, path, at);
        Some(done)
    } else if at == path.len() {
        done.push(Component::ParentDir);
        assert(component_views(done@) =~= given.push(ComponentView::ParentDir));
        relative_walk(path, at, from, from_at + 1, done)
    } else if done.len() == 0 && path[at].same_as(&from[from_at]) {
        relative_walk(path, at + 1, from, from_at + 1, done)
    } else if from[from_at].same_as(&Component::CurDir) {
        done.push(path[at].clone());
        assert(component_views(done@) =~= given.push(p[0]));
        relative_walk(path, at + 1, from, from_at + 1, done)
    } else if from[from_at].same_as(&Component::ParentDir) {
        None
    } else {
        push_parents(&mut done, from.len() - from_at);
        push_rest(&mut done, path, at);
        Some(done)
    }
}

/// The text of an optional string.
pub open spec fn text_option_view(text: Option<String>) -> Option<Seq<char>> {
    match text {
        Some(text) => Some(text@),
        None => None,
    }
}

/// Returns the relative form of `path` as seen from the directory `from`, or nothing
/// where there is none: where `path` is relative and `from` absolute, or where the
/// way would lead through a `..` in `from`.
pub fn relative_from(path: &str, from: &str) -> (relative: Option<String>)
    ensures
        text_option_view(relative) == relative_path(path@, from@),
{
    let path_absolute = starts_at_root(path);
    if path_absolute != starts_at_root(from) {
        if path_absolute {
            Some(String::from_str(path))
        } else {
            None
        }
    } else {
        let a = components(path);
        let b = components(from);
        let done: Vec<Component> = Vec::new();
        assert(component_views(done@) =~= Seq::<ComponentView>::empty());
        assert(component_views(a@).skip(0) =~= component_views(a@));
        assert(component_views(b@).skip(0) =~= component_views(b@));
        match relative_walk(&a, 0, &b, 0, done) {
            Some(list) => Some(render(&list)),
            None => None,
        }
    }
}

/// The character is the given one.
pub open spec fn is_char(c: char) -> spec_fn(char) -> bool {
    |x: char| x == c
}

/// Where the last piece of a path starts: behind its last `/`, or at 0.
pub open spec fn name_start(path: Seq<char>) -> int {
    match last_index(path, is_char('/')) {
        Some(i) => i + 1,
        None => 0,
    }
}

/// The file name of a path: its last piece, where that is a name and not empty, `.`
/// or `..`.
pub open spec fn file_name_of(path: Seq<char>) -> Option<Seq<char>> {
    let name = path.skip(name_start(path));
    if name.len() == 0 || name == seq!['.'] || name == seq!['.', '.'] {
        None
    } else {
        Some(name)
    }
}

/// A file name without its extension: what stands before its last `.`, or all of it
/// where it has no `.` or only the one it starts with.
pub open spec fn stem_of(name: Seq<char>) -> Seq<char> {
    match last_index(name, is_char('.')) {
        Some(i) => if i == 0 {
            name
        } else {
            name.take(i)
        },
        None => name,
    }
}

/// The directory part of a path, up to and with its last `/`.
pub open spec fn directory_of(path: Seq<char>) -> Seq<char> {
    path.take(name_start(path))
}

/// The path with another file name in place of its own.
pub open spec fn with_file_name_of(path: Seq<char>, name: Seq<char>) -> Option<Seq<char>> {
    match file_name_of(path) {
        Some(_) => Some(directory_of(path) + name),
        None => None,
    }
}

/// The path with another extension in place of its own.
pub open spec fn with_extension_of(path: Seq<char>, extension: Seq<char>) -> Option<Seq<char>> {
    match file_name_of(path) {
        Some(name) => Some(directory_of(path) + stem_of(name) + seq!['.'] + extension),
        None => None,
    }
}

/// The directory that holds the last component of a path, written from its
/// components; nothing where the path has no component or only the root.
pub open spec fn parent_of(path: Seq<char>) -> Option<Seq<char>> {
    let list = components_of(path);
    if list.len() == 0 || list.last() == ComponentView::RootDir {
        None
    } else {
        Some(rendered(list.drop_last()))
    }
}

fn last_position(text: &str, c: char) -> (found: Option<usize>)
    ensures
        match found {
            Some(i) => i < text@.len() && last_index(text@, is_char(c)) == Some(i as int),
            None => last_index(text@, is_char(c)) is None,
        },
{
    let n = text.unicode_len();
    let mut found: Option<usize> = None;
    let mut i: usize = 0;
    assert(text@.take(0) =~= Seq::<char>::empty());
    while i < n
        invariant
            n == text@.len(),
            i <= n,
            match found {
                Some(k) => k < i && last_index(text@.take(i as int), is_char(c)) == Some(k as int),
                None => last_index(text@.take(i as int), is_char(c)) is None,
            },
        decreases n - i,
    {
        proof {
            lemma_last_index_step(text@, is_char(c), i as int);
        }
        if text.get_char(i) == c {
            found = Some(i);
        }
        i += 1;
    }
    assert(text@.take(n as int) =~= text@);
    found
}

fn start_of_name(path: &str) -> (start: usize)
    ensures
        start == name_start(path@),
        start <= path@.len(),
{
    let n = path.unicode_len();
    match last_position(path, '/') {
        Some(i) => {
            assert(i < n);
            i + 1
        },
        None => 0,
    }
}

/// The file name of a path.
pub fn file_name(path: &str) -> (name: Option<&str>)
    ensures
        match name {
            Some(name) => file_name_of(path@) == Some(name@),
            None => file_name_of(path@) is None,
        },
{
    proof {
        reveal_strlit(".");
        reveal_strlit("..");
        assert("."@ =~= seq!['.']);
        assert(".."@ =~= seq!['.', '.']);
    }
    let n = path.unicode_len();
    let start = start_of_name(path);
    let name = path.substring_char(start, n);
    assert(name@ =~= path@.skip(start as int));
    if n == start || same(name, ".") || same(name, "..") {
        None
    } else {
        Some(name)
    }
}

/// A file name without its extension.
pub fn file_stem(name: &str) -> (stem: &str)
    ensures
        stem@ == stem_of(name@),
{
    match last_position(name, '.') {
        Some(i) => if i == 0 {
            name
        } else {
            let stem = name.substring_char(0, i);
            assert(stem@ =~= name@.take(i as int));
            stem
        },
        None => name,
    }
}

/// The path with another file name in place of its own; nothing where the path has
/// no file name.
pub fn with_file_name(path: &str, name: &str) -> (changed: Option<String>)
    ensures
        text_option_view(changed) == with_file_name_of(path@, name@),
{
    match file_name(path) {
        None => None,
        Some(_) => {
            let start = start_of_name(path);
            let directory = path.substring_char(0, start);
            assert(directory@ =~= directory_of(path@));
            let mut changed = String::from_str(directory);
            changed.append(name);
            Some(changed)
        },
    }
}

/// The path with another extension in place of its own; nothing where the path has
/// no file name.
pub fn with_extension(path: &str, extension: &str) -> (changed: Option<String>)
    ensures
        text_option_view(changed) == with_extension_of(path@, extension@),
{
    match file_name(path) {
        None => None,
        Some(name) => {
            proof {
                reveal_strlit(".");
                assert("."@ =~= seq!['.']);
            }
            let start = start_of_name(path);
            let directory = path.substring_char(0, start);
            assert(directory@ =~= directory_of(path@));
            let mut changed = String::from_str(directory);
            changed.append(file_stem(name));
            changed.append(".");
            changed.append(extension);
            Some(changed)
        },
    }
}

/// The directory that holds the last component of a path.
pub fn parent(path: &str) -> (directory: Option<String>)
    ensures
        text_option_view(directory) == parent_of(path@),
{
    let mut list = components(path);
    let ghost all = component_views(list@);
    if list.len() == 0 {
        return None;
    }
    let last = list.pop().unwrap();
    assert(component_views(list@) =~= all.drop_last());
    assert(last@ == all.last());
    if last.same_as(&Component::RootDir) {
        None
    } else {
        Some(render(&list))
    }
}

/// Whether a path lies in a directory or below it: its components begin with those of
/// the directory.
pub open spec fn lies_under(path: Seq<char>, dir: Seq<char>) -> bool {
    let p = components_of(path);
    let d = components_of(dir);
    d.len() <= p.len() && p.take(d.len() as int) == d
}

/// Whether a path lies in a directory or below it.
pub fn starts_with(path: &str, dir: &str) -> (under: bool)
    ensures
        under == lies_under(path@, dir@),
{
    let p = components(path);
    let d = components(dir);
    if d.len() > p.len() {
        return false;
    }
    let ghost pv = component_views(p@);
    let ghost dv = component_views(d@);
    let mut i: usize = 0;
    while i < d.len()
        invariant
            i <= d.len() <= p.len(),
            pv == component_views(p@),
            dv == component_views(d@),
            pv == components_of(path@),
            dv == components_of(dir@),
            forall|k: int| 0 <= k < i ==> pv[k] == dv[k],
        decreases d.len() - i,
    {
        if !p[i].same_as(&d[i]) {
            assert(pv.take(dv.len() as int)[i as int] != dv[i as int]);
            return false;
        }
        i += 1;
    }
    assert(pv.take(dv.len() as int) =~= dv);
    true
}

} // verus!
