//! The scene corpus: the names of its scenes, the scenes that a technique has no
//! results for yet, and the paths of the scene files.

use crate::paths::{join, joined};
use crate::seqs::{first_index, lemma_first_index_is, lemma_first_index_none};
use crate::text::{same, texts};
use crate::utils::{
    file_name, file_name_of, file_stem, parent, parent_of, stem_of, with_extension,
    with_extension_of, with_file_name, with_file_name_of,
};
use crate::workspace::{
    renderer_views, scene_views, Renderer, RendererView, Scene, SceneView, Technique,
    TechniqueView, ResultLogView,
};
use vstd::prelude::*;
use vstd::string::*;

verus! {

/// The names of the first `count` scenes of a renderer.
pub open spec fn renderer_names(r: RendererView, count: int) -> Seq<Seq<char>>
    decreases count,
{
    if count <= 0 {
        Seq::empty()
    } else {
        renderer_names(r, count - 1).push(r.scenes[count - 1].name)
    }
}

/// The names of the scenes of the corpus, renderer after renderer.
pub open spec fn corpus_names(corpus: Seq<RendererView>) -> Seq<Seq<char>>
    decreases corpus.len(),
{
    if corpus.len() == 0 {
        Seq::empty()
    } else {
        corpus_names(corpus.drop_last()) + renderer_names(
            corpus.last(),
            corpus.last().scenes.len() as int,
        )
    }
}

/// The result is for the scene of the given name.
pub open spec fn result_for(name: Seq<char>) -> spec_fn(ResultLogView) -> bool {
    |r: ResultLogView| r.scene_name == name
}

/// Whether the technique has a result for the scene of the given name.
pub open spec fn has_result_for(t: TechniqueView, name: Seq<char>) -> bool {
    first_index(t.results, result_for(name)) is Some
}

/// The names among `names` for which the technique has no result, each once, in the
/// order in which they first come.
pub open spec fn missing(names: Seq<Seq<char>>, t: TechniqueView) -> Seq<Seq<char>>
    decreases names.len(),
{
    if names.len() == 0 {
        Seq::empty()
    } else {
        let before = missing(names.drop_last(), t);
        if has_result_for(t, names.last()) || before.contains(names.last()) {
            before
        } else {
            before.push(names.last())
        }
    }
}

/// The missing names are exactly the given names for which the technique has no
/// result, and none of them comes twice.
pub proof fn lemma_missing(names: Seq<Seq<char>>, t: TechniqueView)
    ensures
        forall|n: Seq<char>| #[trigger]
            missing(names, t).contains(n) <==> names.contains(n) && !has_result_for(t, n),
        missing(names, t).no_duplicates(),
    decreases names.len(),
{
    if names.len() > 0 {
        let head = names.drop_last();
        let before = missing(head, t);
        let last = names.last();
        lemma_missing(head, t);
        assert forall|n: Seq<char>| #[trigger]
            missing(names, t).contains(n) <==> names.contains(n) && !has_result_for(t, n) by {
            assert(before.contains(n) <==> head.contains(n) && !has_result_for(t, n));
            if names.contains(n) {
                let i = choose|i: int| 0 <= i < names.len() && names[i] == n;
                if i < head.len() {
                    assert(head[i] == n);
                }
            }
            if head.contains(n) {
                let i = choose|i: int| 0 <= i < head.len() && head[i] == n;
                assert(names[i] == n);
            }
            assert(names[names.len() - 1] == last);
            if missing(names, t) != before {
                let grown = before.push(last);
                if grown.contains(n) {
                    let i = choose|i: int| 0 <= i < grown.len() && grown[i] == n;
                    if i < before.len() {
                        assert(before[i] == n);
                    }
                }
                if before.contains(n) {
                    let i = choose|i: int| 0 <= i < before.len() && before[i] == n;
                    assert(grown[i] == n);
                }
                assert(grown[before.len() as int] == last);
            }
        }
    }
}

fn technique_has_result(t: &Technique, name: &str) -> (has: bool)
    ensures
        has == has_result_for(t@, name@),
{
    let mut k: usize = 0;
    while k < t.results.len()
        invariant
            k <= t.results.len(),
            forall|j: int| 0 <= j < k ==> !result_for(name@)(#[trigger] t@.results[j]),
        decreases t.results.len() - k,
    {
        if same(t.results[k].scene_name.as_str(), name) {
            proof {
                lemma_first_index_is(t@.results, result_for(name@), k as int);
            }
            return true;
        }
        k += 1;
    }
    proof {
        lemma_first_index_none(t@.results, result_for(name@));
    }
    false
}

/// Whether a list holds a string.
pub fn contains_text(list: &Vec<String>, text: &str) -> (held: bool)
    ensures
        held == texts(list@).contains(text@),
{
    let mut i: usize = 0;
    while i < list.len()
        invariant
            i <= list.len(),
            forall|j: int| 0 <= j < i ==> texts(list@)[j] != text@,
        decreases list.len() - i,
    {
        if same(list[i].as_str(), text) {
            assert(texts(list@)[i as int] == text@);
            return true;
        }
        i += 1;
    }
    false
}

/// The scenes of the corpus for which the technique has no result yet: their names,
/// each once, in the order of the corpus.
pub fn missing_scenes(corpus: &Vec<Renderer>, tech: &Technique) -> (names: Vec<String>)
    ensures
        texts(names@) == missing(corpus_names(renderer_views(corpus@)), tech@),
{
    let ghost all = renderer_views(corpus@);
    let mut names: Vec<String> = Vec::new();
    let mut i: usize = 0;
    assert(all.take(0) =~= Seq::<RendererView>::empty());
    assert(texts(names@) =~= Seq::<Seq<char>>::empty());
    while i < corpus.len()
        invariant
            i <= corpus.len(),
            all == renderer_views(corpus@),
            texts(names@) == missing(corpus_names(all.take(i as int)), tech@),
        decreases corpus.len() - i,
    {
        let ghost head = corpus_names(all.take(i as int));
        let r = &corpus[i];
        let mut k: usize = 0;
        assert(head + renderer_names(r@, 0) =~= head);
        while k < r.scenes.len()
            invariant
                k <= r.scenes.len(),
                texts(names@) == missing(head + renderer_names(r@, k as int), tech@),
            decreases r.scenes.len() - k,
        {
            let ghost before = names@;
            let name = r.scenes[k].name.as_str();
            proof {
                let grown = head + renderer_names(r@, k + 1);
                assert(grown.drop_last() =~= head + renderer_names(r@, k as int));
                assert(grown.last() == name@);
            }
            if !technique_has_result(tech, name) && !contains_text(&names, name) {
                names.push(String::from_str(name));
                assert(texts(names@) =~= texts(before).push(name@));
            }
            k += 1;
        }
        proof {
            assert(all.take(i + 1).drop_last() =~= all.take(i as int));
            assert(all.take(i + 1).last() == r@);
        }
        i += 1;
    }
    assert(all.take(i as int) =~= all);
    names
}

/// A scene of the scene cache with the paths of its two other images: the PNG beside
/// the reference image under the same name, and the thumbnail beside it under the name
/// with `_thumb256.jpg` in place of the extension. The reference image stays as the
/// cache holds it, relative to the scenes directory. There is no such scene where the
/// reference image has no file name.
pub open spec fn completed(s: SceneView) -> Option<SceneView> {
    let exr = s.ref_img;
    match file_name_of(exr) {
        None => None,
        Some(name) => Some(
            SceneView {
                ref_img: exr,
                png: with_extension_of(exr, "png"@)->0,
                thumb: with_file_name_of(exr, stem_of(name) + "_thumb256.jpg"@)->0,
                ..s
            },
        ),
    }
}

/// The content of an optional scene.
pub open spec fn scene_option_view(s: Option<Scene>) -> Option<SceneView> {
    match s {
        Some(s) => Some(s@),
        None => None,
    }
}

/// Completes the image paths of a scene of the scene cache.
pub fn complete_scene(s: &Scene) -> (done: Option<Scene>)
    ensures
        scene_option_view(done) == completed(s@),
{
    let exr = s.ref_img.clone();
    let name = match file_name(exr.as_str()) {
        Some(name) => name,
        None => {
            return None;
        },
    };
    let mut thumb_name = String::from_str(file_stem(name));
    thumb_name.append("_thumb256.jpg");
    let thumb = match with_file_name(exr.as_str(), thumb_name.as_str()) {
        Some(t) => t,
        None => {
            return None;
        },
    };
    let png = match with_extension(exr.as_str(), "png") {
        Some(p) => p,
        None => {
            return None;
        },
    };
    Some(
        Scene {
            name: s.name.clone(),
            path: s.path.clone(),
            ref_img: exr,
            citation: s.citation.clone(),
            png,
            thumb,
        },
    )
}

/// Whether the first `count` scenes of `done` are those of `r`, completed.
pub open spec fn scenes_completed(r: RendererView, done: Seq<SceneView>, count: int) -> bool {
    forall|k: int| 0 <= k < count ==> completed(#[trigger] r.scenes[k]) == Some(done[k])
}

/// Whether `done` is the corpus `given` with every scene completed.
pub open spec fn corpus_completed(given: Seq<RendererView>, done: Seq<RendererView>) -> bool {
    &&& done.len() == given.len()
    &&& forall|i: int|
        0 <= i < given.len() ==> {
            &&& (#[trigger] done[i]).renderer == given[i].renderer
            &&& done[i].scenes.len() == given[i].scenes.len()
            &&& scenes_completed(given[i], done[i].scenes, given[i].scenes.len() as int)
        }
}

/// Whether some scene of the corpus cannot be completed.
pub open spec fn corpus_incomplete(given: Seq<RendererView>) -> bool {
    exists|i: int, k: int|
        0 <= i < given.len() && 0 <= k < given[i].scenes.len() && completed(
            #[trigger] given[i].scenes[k],
        ) is None
}

fn complete_renderer(r: &Renderer) -> (done: Option<Renderer>)
    ensures
        match done {
            Some(done) => done@.renderer == r@.renderer && done@.scenes.len() == r@.scenes.len()
                && scenes_completed(r@, done@.scenes, r@.scenes.len() as int),
            None => exists|k: int|
                0 <= k < r@.scenes.len() && completed(#[trigger] r@.scenes[k])
                    is None,
        },
{
    let mut scenes: Vec<Scene> = Vec::new();
    let mut k: usize = 0;
    while k < r.scenes.len()
        invariant
            k <= r.scenes.len(),
            scenes.len() == k,
            scenes_completed(r@, scene_views(scenes@), k as int),
        decreases r.scenes.len() - k,
    {
        match complete_scene(&r.scenes[k]) {
            None => {
                assert(completed(r@.scenes[k as int]) is None);
                return None;
            },
            Some(s) => {
                let ghost before = scene_views(scenes@);
                scenes.push(s);
                assert(scene_views(scenes@) =~= before.push(s@));
            },
        }
        k += 1;
    }
    Some(Renderer { renderer: r.renderer.clone(), scenes })
}

/// Completes the image paths of every scene of the corpus, as it was read from the
/// scene cache. There is no result where a reference image has no file name.
pub fn load_scenes(given: &Vec<Renderer>) -> (done: Option<Vec<Renderer>>)
    ensures
        match done {
            Some(done) => corpus_completed(renderer_views(given@), renderer_views(done@)),
            None => corpus_incomplete(renderer_views(given@)),
        },
{
    let mut done: Vec<Renderer> = Vec::new();
    let mut i: usize = 0;
    while i < given.len()
        invariant
            i <= given.len(),
            done.len() == i,
            corpus_completed(renderer_views(given@).take(i as int), renderer_views(done@)),
        decreases given.len() - i,
    {
        match complete_renderer(&given[i]) {
            None => {
                let ghost k = choose|k: int|
                    0 <= k < given@[i as int]@.scenes.len() && completed(
                        #[trigger] given@[i as int]@.scenes[k],
                    ) is None;
                assert(completed(renderer_views(given@)[i as int].scenes[k]) is None);
                return None;
            },
            Some(r) => {
                let ghost before = renderer_views(done@);
                done.push(r);
                assert(renderer_views(done@) =~= before.push(r@));
            },
        }
        i += 1;
    }
    assert(renderer_views(given@).take(i as int) =~= renderer_views(given@));
    Some(done)
}

/// A scene file found under the directory of a renderer, with the scenes it lists.
#[derive(Debug)]
pub struct SceneFile {
    /// The path of the file, relative to the directory of its renderer.
    pub path: String,
    pub scenes: Vec<Scene>,
}

/// Mathematical content of a `SceneFile`.
pub ghost struct SceneFileView {
    pub path: Seq<char>,
    pub scenes: Seq<SceneView>,
}

impl View for SceneFile {
    type V = SceneFileView;

    open spec fn view(&self) -> SceneFileView {
        SceneFileView { path: self.path@, scenes: scene_views(self.scenes@) }
    }
}

/// The content of each file.
pub open spec fn file_views(list: Seq<SceneFile>) -> Seq<SceneFileView> {
    list.map_values(|f: SceneFile| f@)
}

/// The directory of a renderer, with the scene files found under it.
#[derive(Debug)]
pub struct RendererDir {
    /// The name of the directory, which is the name of the renderer.
    pub name: String,
    pub files: Vec<SceneFile>,
}

/// Mathematical content of a `RendererDir`.
pub ghost struct RendererDirView {
    pub name: Seq<char>,
    pub files: Seq<SceneFileView>,
}

impl View for RendererDir {
    type V = RendererDirView;

    open spec fn view(&self) -> RendererDirView {
        RendererDirView { name: self.name@, files: file_views(self.files@) }
    }
}

/// The content of each directory.
pub open spec fn dir_views(list: Seq<RendererDir>) -> Seq<RendererDirView> {
    list.map_values(|d: RendererDir| d@)
}

/// The directory in which a scene file lies, as seen from the directory of its
/// renderer; empty where the file lies in that directory itself.
pub open spec fn directory_of_file(path: Seq<char>) -> Seq<char> {
    match parent_of(path) {
        Some(dir) => dir,
        None => Seq::empty(),
    }
}

/// A path of a scene file made relative to the scenes directory: the directory of the
/// renderer, then the directory of the scene file in it, then the path as the scene
/// file gives it.
pub open spec fn under_scenes(renderer: Seq<char>, dir: Seq<char>, path: Seq<char>) -> Seq<char> {
    joined(renderer, joined(dir, path))
}

/// A scene with its path and its reference image made relative to the scenes
/// directory, where `renderer` is the directory of its renderer and `dir` the
/// directory of the scene file in it.
pub open spec fn fixed(s: SceneView, renderer: Seq<char>, dir: Seq<char>) -> SceneView {
    SceneView {
        path: under_scenes(renderer, dir, s.path),
        ref_img: under_scenes(renderer, dir, s.ref_img),
        ..s
    }
}

/// The scenes of a file of the renderer, fixed.
pub open spec fn file_scenes(renderer: Seq<char>, f: SceneFileView) -> Seq<SceneView> {
    f.scenes.map_values(|s: SceneView| fixed(s, renderer, directory_of_file(f.path)))
}

/// The scenes of the first `count` files of the renderer, fixed, file after file.
pub open spec fn dir_scenes(renderer: Seq<char>, files: Seq<SceneFileView>, count: int) -> Seq<
    SceneView,
>
    decreases count,
{
    if count <= 0 {
        Seq::empty()
    } else {
        dir_scenes(renderer, files, count - 1) + file_scenes(renderer, files[count - 1])
    }
}

/// Number of scenes that the first `count` files list.
pub open spec fn listed_scenes(files: Seq<SceneFileView>, count: int) -> int
    decreases count,
{
    if count <= 0 {
        0
    } else {
        listed_scenes(files, count - 1) + files[count - 1].scenes.len()
    }
}

/// The renderer that a directory stands for.
pub open spec fn renderer_of_dir(d: RendererDirView) -> RendererView {
    RendererView { renderer: d.name, scenes: dir_scenes(d.name, d.files, d.files.len() as int) }
}

/// The scene cache that follows from the directories of the renderers: one renderer
/// for each directory, in their order, with the scenes of its files. Every path in it
/// is relative to the scenes directory.
pub open spec fn scene_cache(dirs: Seq<RendererDirView>) -> Seq<RendererView> {
    dirs.map_values(|d: RendererDirView| renderer_of_dir(d))
}

/// Makes the path and the reference image of a scene relative to the scenes
/// directory, where `renderer` is the directory of its renderer and `file` the path of
/// the scene file in that directory.
pub fn fix_scene_paths(scene: &Scene, renderer: &str, file: &str) -> (done: Scene)
    ensures
        done@ == fixed(scene@, renderer@, directory_of_file(file@)),
{
    let dir = match parent(file) {
        Some(dir) => dir,
        None => String::new(),
    };
    Scene {
        name: scene.name.clone(),
        path: join(renderer, join(dir.as_str(), scene.path.as_str()).as_str()),
        ref_img: join(renderer, join(dir.as_str(), scene.ref_img.as_str()).as_str()),
        citation: scene.citation.clone(),
        png: scene.png.clone(),
        thumb: scene.thumb.clone(),
    }
}

fn renderer_from_dir(d: &RendererDir) -> (r: Renderer)
    ensures
        r@ == renderer_of_dir(d@),
{
    let mut scenes: Vec<Scene> = Vec::new();
    let mut i: usize = 0;
    assert(scene_views(scenes@) =~= dir_scenes(d@.name, d@.files, 0));
    while i < d.files.len()
        invariant
            i <= d.files.len(),
            scene_views(scenes@) == dir_scenes(d@.name, d@.files, i as int),
        decreases d.files.len() - i,
    {
        let f = &d.files[i];
        let ghost head = scene_views(scenes@);
        let mut k: usize = 0;
        assert(scene_views(scenes@) =~= head + file_scenes(d@.name, f@).take(0));
        while k < f.scenes.len()
            invariant
                k <= f.scenes.len(),
                scene_views(scenes@) == head + file_scenes(d@.name, f@).take(k as int),
            decreases f.scenes.len() - k,
        {
            let ghost before = scene_views(scenes@);
            let s = fix_scene_paths(&f.scenes[k], d.name.as_str(), f.path.as_str());
            scenes.push(s);
            assert(scene_views(scenes@) =~= before.push(s@));
            k += 1;
            assert(scene_views(scenes@) =~= head + file_scenes(d@.name, f@).take(k as int));
        }
        assert(file_scenes(d@.name, f@).take(k as int) =~= file_scenes(d@.name, f@));
        i += 1;
    }
    Renderer { renderer: d.name.clone(), scenes }
}

/// Builds the scene cache from what a scan of the scenes directory found: for each
/// directory of a renderer, its scene files with the scenes they list.
pub fn update_scenes(dirs: &Vec<RendererDir>) -> (renderers: Vec<Renderer>)
    ensures
        renderer_views(renderers@) == scene_cache(dir_views(dirs@)),
{
    let mut renderers: Vec<Renderer> = Vec::new();
    let mut i: usize = 0;
    while i < dirs.len()
        invariant
            i <= dirs.len(),
            renderer_views(renderers@) == scene_cache(dir_views(dirs@)).take(i as int),
        decreases dirs.len() - i,
    {
        let ghost before = renderer_views(renderers@);
        let r = renderer_from_dir(&dirs[i]);
        renderers.push(r);
        assert(renderer_views(renderers@) =~= before.push(r@));
        i += 1;
        assert(renderer_views(renderers@) =~= scene_cache(dir_views(dirs@)).take(i as int));
    }
    assert(scene_cache(dir_views(dirs@)).take(i as int) =~= scene_cache(dir_views(dirs@)));
    renderers
}

/// The scene cache loses no scene and doubles none: it holds one renderer for each
/// directory, under the name of the directory, and for each renderer as many scenes as
/// its scene files list, in the order of the files.
pub proof fn lemma_scene_cache(dirs: Seq<RendererDirView>, i: int)
    requires
        0 <= i < dirs.len(),
    ensures
        scene_cache(dirs).len() == dirs.len(),
        scene_cache(dirs)[i].renderer == dirs[i].name,
        scene_cache(dirs)[i].scenes.len() == listed_scenes(
            dirs[i].files,
            dirs[i].files.len() as int,
        ),
{
    lemma_dir_scenes_len(dirs[i].name, dirs[i].files, dirs[i].files.len() as int);
}

/// The files of a renderer contribute as many scenes as they list.
pub proof fn lemma_dir_scenes_len(renderer: Seq<char>, files: Seq<SceneFileView>, count: int)
    ensures
        dir_scenes(renderer, files, count).len() == listed_scenes(files, count),
    decreases count,
{
    if count > 0 {
        lemma_dir_scenes_len(renderer, files, count - 1);
    }
}

/// A path of the scene cache begins with the directory of its renderer: where the
/// renderer's name is not empty and ends in no `/`, and the path that the scene file
/// leads to is relative, the path is the name, a `/`, and that relative path.
pub proof fn lemma_under_scenes(renderer: Seq<char>, dir: Seq<char>, path: Seq<char>)
    requires
        renderer.len() > 0,
        renderer.last() != '/',
        !crate::paths::is_absolute(joined(dir, path)),
    ensures
        under_scenes(renderer, dir, path) == renderer + seq!['/'] + joined(dir, path),
{
    reveal(joined);
}

} // verus!
