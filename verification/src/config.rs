//! Benchmark configurations: which scenes, at which sample budgets, are run with
//! which techniques.

use crate::info::TechniqueType;
use crate::page::ints;
use crate::seqs::{
    first_index, last_index, lemma_first_index_is, lemma_first_index_none, lemma_last_index_step,
};
use crate::text::{same, texts};
use crate::workspace as wp;
use vstd::prelude::*;
use vstd::string::*;

verus! {

/// A technique of a configuration, with the versions of it that are run.
#[derive(Debug)]
pub struct Technique {
    pub name: String,
    pub versions: Vec<String>,
}

/// Mathematical content of a `Technique`.
pub ghost struct TechniqueView {
    pub name: Seq<char>,
    pub versions: Seq<Seq<char>>,
}

impl View for Technique {
    type V = TechniqueView;

    open spec fn view(&self) -> TechniqueView {
        TechniqueView { name: self.name@, versions: texts(self.versions@) }
    }
}

/// The technique of the given name, with its `default` version.
pub open spec fn default_technique(name: Seq<char>) -> TechniqueView {
    TechniqueView { name, versions: seq!["default"@] }
}

impl Technique {
    /// The technique of the given name, with its `default` version.
    pub fn new(name: &str) -> (t: Technique)
        ensures
            t@ == default_technique(name@),
    {
        let mut versions: Vec<String> = Vec::new();
        versions.push(String::from_str("default"));
        assert(texts(versions@) =~= seq!["default"@]);
        Technique { name: String::from_str(name), versions }
    }
}

/// The content of each technique.
pub open spec fn technique_views(list: Seq<Technique>) -> Seq<TechniqueView> {
    list.map_values(|t: Technique| t@)
}

/// A scene of a configuration, with the sample budgets at which it is rendered.
#[derive(Debug)]
pub struct Scene {
    pub name: String,
    pub spps: Vec<i32>,
}

/// Mathematical content of a `Scene`.
pub ghost struct SceneView {
    pub name: Seq<char>,
    pub spps: Seq<int>,
}

impl View for Scene {
    type V = SceneView;

    open spec fn view(&self) -> SceneView {
        SceneView { name: self.name@, spps: ints(self.spps@) }
    }
}

impl Scene {
    /// The scene of the given name, with no sample budget yet.
    pub fn new(name: &str) -> (s: Scene)
        ensures
            s@ == (SceneView { name: name@, spps: Seq::empty() }),
    {
        let s = Scene { name: String::from_str(name), spps: Vec::new() };
        assert(s@.spps =~= Seq::empty());
        s
    }
}

/// The content of each scene.
pub open spec fn scene_views(list: Seq<Scene>) -> Seq<SceneView> {
    list.map_values(|s: Scene| s@)
}

/// A renderer of a configuration, with the scenes that it renders.
#[derive(Debug)]
pub struct Renderer {
    pub name: String,
    pub scenes: Vec<Scene>,
}

/// Mathematical content of a `Renderer`.
pub ghost struct RendererView {
    pub name: Seq<char>,
    pub scenes: Seq<SceneView>,
}

impl View for Renderer {
    type V = RendererView;

    open spec fn view(&self) -> RendererView {
        RendererView { name: self.name@, scenes: scene_views(self.scenes@) }
    }
}

impl Renderer {
    /// The renderer of the given name with the given scenes.
    pub fn new(name: &str, scenes: Vec<Scene>) -> (r: Renderer)
        ensures
            r@ == (RendererView { name: name@, scenes: scene_views(scenes@) }),
    {
        Renderer { name: String::from_str(name), scenes }
    }
}

/// The content of each renderer.
pub open spec fn renderer_views(list: Seq<Renderer>) -> Seq<RendererView> {
    list.map_values(|r: Renderer| r@)
}

/// A benchmark configuration.
#[derive(Debug)]
pub struct Config {
    pub renderers: Vec<Renderer>,
    pub filters: Vec<Technique>,
    pub samplers: Vec<Technique>,
}

/// Mathematical content of a `Config`.
pub ghost struct ConfigView {
    pub renderers: Seq<RendererView>,
    pub filters: Seq<TechniqueView>,
    pub samplers: Seq<TechniqueView>,
}

impl View for Config {
    type V = ConfigView;

    open spec fn view(&self) -> ConfigView {
        ConfigView {
            renderers: renderer_views(self.renderers@),
            filters: technique_views(self.filters@),
            samplers: technique_views(self.samplers@),
        }
    }
}

/// The scene with the given sample budgets.
pub open spec fn scene_with_spps(s: SceneView, spps: Seq<int>) -> SceneView {
    SceneView { spps, ..s }
}

/// The renderer with the given sample budgets for each of its scenes.
pub open spec fn renderer_with_spps(r: RendererView, spps: Seq<int>) -> RendererView {
    RendererView { scenes: r.scenes.map_values(|s: SceneView| scene_with_spps(s, spps)), ..r }
}

/// The renderers with the given sample budgets for each of their scenes.
pub open spec fn renderers_with_spps(list: Seq<RendererView>, spps: Seq<int>) -> Seq<RendererView> {
    list.map_values(|r: RendererView| renderer_with_spps(r, spps))
}

/// The name of each technique, each with its `default` version.
pub open spec fn default_techniques(names: Seq<Seq<char>>) -> Seq<TechniqueView> {
    names.map_values(|n: Seq<char>| default_technique(n))
}

fn copy_spps(spps: &[i32]) -> (copy: Vec<i32>)
    ensures
        copy@ == spps@,
{
    let mut copy: Vec<i32> = Vec::new();
    let mut i: usize = 0;
    while i < spps.len()
        invariant
            i <= spps.len(),
            copy@ == spps@.take(i as int),
        decreases spps.len() - i,
    {
        copy.push(spps[i]);
        i += 1;
        assert(copy@ =~= spps@.take(i as int));
    }
    assert(spps@.take(i as int) =~= spps@);
    copy
}

fn renderer_with(r: &Renderer, spps: &[i32]) -> (changed: Renderer)
    ensures
        changed@ == renderer_with_spps(r@, ints(spps@)),
{
    let mut scenes: Vec<Scene> = Vec::new();
    let mut k: usize = 0;
    while k < r.scenes.len()
        invariant
            k <= r.scenes.len(),
            scene_views(scenes@) == renderer_with_spps(r@, ints(spps@)).scenes.take(k as int),
        decreases r.scenes.len() - k,
    {
        let ghost before = scenes@;
        let s = Scene { name: r.scenes[k].name.clone(), spps: copy_spps(spps) };
        scenes.push(s);
        assert(scene_views(scenes@) =~= scene_views(before).push(s@));
        k += 1;
        assert(scene_views(scenes@) =~= renderer_with_spps(r@, ints(spps@)).scenes.take(k as int));
    }
    assert(renderer_with_spps(r@, ints(spps@)).scenes.take(k as int) =~= renderer_with_spps(
        r@,
        ints(spps@),
    ).scenes);
    Renderer { name: r.name.clone(), scenes }
}

impl Config {
    /// A configuration with nothing in it.
    pub fn new() -> (c: Config)
        ensures
            c@ == (ConfigView {
                renderers: Seq::empty(),
                filters: Seq::empty(),
                samplers: Seq::empty(),
            }),
    {
        let c = Config { renderers: Vec::new(), filters: Vec::new(), samplers: Vec::new() };
        assert(c@.renderers =~= Seq::empty());
        assert(c@.filters =~= Seq::empty());
        assert(c@.samplers =~= Seq::empty());
        c
    }

    /// Adds a technique to its group, with its `default` version.
    pub fn add_technique(&mut self, group: TechniqueType, name: &str)
        ensures
            final(self)@ == (match group {
                TechniqueType::DENOISER => ConfigView {
                    filters: old(self)@.filters.push(default_technique(name@)),
                    ..old(self)@
                },
                TechniqueType::SAMPLER => ConfigView {
                    samplers: old(self)@.samplers.push(default_technique(name@)),
                    ..old(self)@
                },
            }),
    {
        let tech = Technique::new(name);
        match group {
            TechniqueType::DENOISER => {
                self.filters.push(tech);
                assert(self@.filters =~= old(self)@.filters.push(default_technique(name@)));
            },
            TechniqueType::SAMPLER => {
                self.samplers.push(tech);
                assert(self@.samplers =~= old(self)@.samplers.push(default_technique(name@)));
            },
        }
    }

    /// Gives every scene of the configuration the same sample budgets.
    pub fn set_spps(&mut self, spps: &[i32])
        ensures
            final(self)@ == (ConfigView {
                renderers: renderers_with_spps(old(self)@.renderers, ints(spps@)),
                ..old(self)@
            }),
    {
        let ghost given = self@.renderers;
        let mut changed: Vec<Renderer> = Vec::new();
        let mut i: usize = 0;
        while i < self.renderers.len()
            invariant
                i <= self.renderers.len(),
                given == renderer_views(self.renderers@),
                renderer_views(changed@) == renderers_with_spps(given, ints(spps@)).take(i as int),
            decreases self.renderers.len() - i,
        {
            let ghost before = changed@;
            let r = renderer_with(&self.renderers[i], spps);
            changed.push(r);
            assert(renderer_views(changed@) =~= renderer_views(before).push(r@));
            i += 1;
            assert(renderer_views(changed@) =~= renderers_with_spps(given, ints(spps@)).take(
                i as int,
            ));
        }
        assert(renderers_with_spps(given, ints(spps@)).take(i as int) =~= renderers_with_spps(
            given,
            ints(spps@),
        ));
        self.renderers = changed;
    }
}

/// The scene of the corpus has the given name.
pub open spec fn corpus_scene_named(name: Seq<char>) -> spec_fn(wp::SceneView) -> bool {
    |s: wp::SceneView| s.name == name
}

/// The renderer of the corpus has a scene of the given name.
pub open spec fn has_scene(name: Seq<char>) -> spec_fn(wp::RendererView) -> bool {
    |r: wp::RendererView| first_index(r.scenes, corpus_scene_named(name)) is Some
}

/// The renderer of a scene: the last renderer of the corpus that has a scene of that
/// name.
pub open spec fn renderer_of(corpus: Seq<wp::RendererView>, name: Seq<char>) -> Option<Seq<char>> {
    match last_index(corpus, has_scene(name)) {
        Some(i) => Some(corpus[i].renderer),
        None => None,
    }
}

/// The renderer of the configuration has the given name.
pub open spec fn renderer_named(name: Seq<char>) -> spec_fn(RendererView) -> bool {
    |r: RendererView| r.name == name
}

/// The renderer with one more scene, which has no sample budget yet.
pub open spec fn with_scene(r: RendererView, name: Seq<char>) -> RendererView {
    RendererView { scenes: r.scenes.push(SceneView { name, spps: Seq::empty() }), ..r }
}

/// The scenes put under their renderers. The renderers stand in the order in which
/// their first scene comes in `scenes`, and under each renderer its scenes stand in
/// the order of `scenes`. A scene that the corpus does not hold is left out.
pub open spec fn grouped(corpus: Seq<wp::RendererView>, scenes: Seq<Seq<char>>) -> Seq<
    RendererView,
>
    decreases scenes.len(),
{
    if scenes.len() == 0 {
        Seq::empty()
    } else {
        let before = grouped(corpus, scenes.drop_last());
        match renderer_of(corpus, scenes.last()) {
            None => before,
            Some(r) => match first_index(before, renderer_named(r)) {
                Some(i) => before.update(i, with_scene(before[i], scenes.last())),
                None => before.push(
                    with_scene(RendererView { name: r, scenes: Seq::empty() }, scenes.last()),
                ),
            },
        }
    }
}

/// The configuration that runs the given techniques on the given scenes, each scene
/// at each of the sample budgets.
pub open spec fn generated(
    corpus: Seq<wp::RendererView>,
    denoisers: Seq<Seq<char>>,
    samplers: Seq<Seq<char>>,
    scenes: Seq<Seq<char>>,
    spps: Seq<int>,
) -> ConfigView {
    ConfigView {
        renderers: renderers_with_spps(grouped(corpus, scenes), spps),
        filters: default_techniques(denoisers),
        samplers: default_techniques(samplers),
    }
}

fn renderer_has_scene(r: &wp::Renderer, name: &str) -> (has: bool)
    ensures
        has == has_scene(name@)(r@),
{
    let mut k: usize = 0;
    while k < r.scenes.len()
        invariant
            k <= r.scenes.len(),
            forall|j: int| 0 <= j < k ==> !corpus_scene_named(name@)(#[trigger] r@.scenes[j]),
        decreases r.scenes.len() - k,
    {
        if same(r.scenes[k].name.as_str(), name) {
            proof {
                lemma_first_index_is(r@.scenes, corpus_scene_named(name@), k as int);
            }
            return true;
        }
        k += 1;
    }
    proof {
        lemma_first_index_none(r@.scenes, corpus_scene_named(name@));
    }
    false
}

/// The renderer of a scene of the corpus.
pub fn scene_renderer<'a>(corpus: &'a Vec<wp::Renderer>, name: &str) -> (renderer: Option<
    &'a String,
>)
    ensures
        match renderer {
            Some(r) => renderer_of(wp::renderer_views(corpus@), name@) == Some(r@),
            None => renderer_of(wp::renderer_views(corpus@), name@) is None,
        },
{
    let ghost all = wp::renderer_views(corpus@);
    let mut found: Option<usize> = None;
    let mut i: usize = 0;
    assert(all.take(0) =~= Seq::<wp::RendererView>::empty());
    while i < corpus.len()
        invariant
            i <= corpus.len(),
            all == wp::renderer_views(corpus@),
            match found {
                Some(k) => k < i && last_index(all.take(i as int), has_scene(name@)) == Some(
                    k as int,
                ),
                None => last_index(all.take(i as int), has_scene(name@)) is None,
            },
        decreases corpus.len() - i,
    {
        proof {
            lemma_last_index_step(all, has_scene(name@), i as int);
        }
        if renderer_has_scene(&corpus[i], name) {
            found = Some(i);
        }
        i += 1;
    }
    assert(all.take(i as int) =~= all);
    match found {
        Some(k) => Some(&corpus[k].renderer),
        None => None,
    }
}

fn position_of(renderers: &Vec<Renderer>, name: &str) -> (found: Option<usize>)
    ensures
        match found {
            Some(i) => i < renderers.len() && first_index(
                renderer_views(renderers@),
                renderer_named(name@),
            ) == Some(i as int),
            None => first_index(renderer_views(renderers@), renderer_named(name@)) is None,
        },
{
    let mut i: usize = 0;
    while i < renderers.len()
        invariant
            i <= renderers.len(),
            forall|j: int|
                0 <= j < i ==> !renderer_named(name@)(#[trigger] renderer_views(renderers@)[j]),
        decreases renderers.len() - i,
    {
        if same(renderers[i].name.as_str(), name) {
            proof {
                lemma_first_index_is(renderer_views(renderers@), renderer_named(name@), i as int);
            }
            return Some(i);
        }
        i += 1;
    }
    proof {
        lemma_first_index_none(renderer_views(renderers@), renderer_named(name@));
    }
    None
}

fn group_scenes(corpus: &Vec<wp::Renderer>, scenes: &Vec<String>) -> (renderers: Vec<Renderer>)
    ensures
        renderer_views(renderers@) == grouped(wp::renderer_views(corpus@), texts(scenes@)),
{
    let ghost all = wp::renderer_views(corpus@);
    let ghost names = texts(scenes@);
    let mut renderers: Vec<Renderer> = Vec::new();
    let mut i: usize = 0;
    assert(names.take(0) =~= Seq::<Seq<char>>::empty());
    assert(renderer_views(renderers@) =~= grouped(all, names.take(0)));
    while i < scenes.len()
        invariant
            i <= scenes.len(),
            all == wp::renderer_views(corpus@),
            names == texts(scenes@),
            renderer_views(renderers@) == grouped(all, names.take(i as int)),
        decreases scenes.len() - i,
    {
        proof {
            assert(names.take(i + 1).drop_last() =~= names.take(i as int));
            assert(names.take(i + 1).last() == scenes@[i as int]@);
        }
        let ghost before = renderer_views(renderers@);
        let name = scenes[i].as_str();
        match scene_renderer(corpus, name) {
            None => {},
            Some(r) => match position_of(&renderers, r.as_str()) {
                Some(at) => {
                    let ghost held = scene_views(renderers[at as int].scenes@);
                    let s = Scene::new(name);
                    renderers[at].scenes.push(s);
                    assert(scene_views(renderers[at as int].scenes@) =~= held.push(s@));
                    assert(renderer_views(renderers@) =~= before.update(
                        at as int,
                        with_scene(before[at as int], name@),
                    ));
                },
                None => {
                    let mut list: Vec<Scene> = Vec::new();
                    let s = Scene::new(name);
                    list.push(s);
                    assert(scene_views(list@) =~= seq![s@]);
                    let added = Renderer::new(r.as_str(), list);
                    assert(added@.scenes =~= with_scene(
                        RendererView { name: r@, scenes: Seq::empty() },
                        name@,
                    ).scenes);
                    renderers.push(added);
                    assert(renderer_views(renderers@) =~= before.push(added@));
                },
            },
        }
        i += 1;
    }
    assert(names.take(i as int) =~= names);
    renderers
}

/// Generates the configuration that runs the given techniques on the given scenes,
/// each scene at each of the sample budgets. A scene that the corpus does not hold is
/// left out.
pub fn gen_config(
    corpus: &Vec<wp::Renderer>,
    denoisers: &Vec<String>,
    samplers: &Vec<String>,
    scenes: &Vec<String>,
    spps: &[i32],
) -> (config: Config)
    ensures
        config@ == generated(
            wp::renderer_views(corpus@),
            texts(denoisers@),
            texts(samplers@),
            texts(scenes@),
            ints(spps@),
        ),
{
    let mut config = Config::new();
    let mut i: usize = 0;
    while i < denoisers.len()
        invariant
            i <= denoisers.len(),
            config@.renderers == Seq::<RendererView>::empty(),
            config@.samplers == Seq::<TechniqueView>::empty(),
            config@.filters == default_techniques(texts(denoisers@)).take(i as int),
        decreases denoisers.len() - i,
    {
        config.add_technique(TechniqueType::DENOISER, denoisers[i].as_str());
        i += 1;
        assert(config@.filters =~= default_techniques(texts(denoisers@)).take(i as int));
    }
    assert(default_techniques(texts(denoisers@)).take(i as int) =~= default_techniques(
        texts(denoisers@),
    ));
    let mut k: usize = 0;
    while k < samplers.len()
        invariant
            k <= samplers.len(),
            config@.renderers == Seq::<RendererView>::empty(),
            config@.filters == default_techniques(texts(denoisers@)),
            config@.samplers == default_techniques(texts(samplers@)).take(k as int),
        decreases samplers.len() - k,
    {
        config.add_technique(TechniqueType::SAMPLER, samplers[k].as_str());
        k += 1;
        assert(config@.samplers =~= default_techniques(texts(samplers@)).take(k as int));
    }
    assert(default_techniques(texts(samplers@)).take(k as int) =~= default_techniques(
        texts(samplers@),
    ));
    config.renderers = group_scenes(corpus, scenes);
    config.set_spps(spps);
    config
}

/// The arguments of the `fbksd` that writes a new configuration `all` for every scene
/// and every technique of the current directory, at the given sample budgets.
pub open spec fn fbksd_config_args_of(spps: Seq<int>) -> Seq<Seq<char>> {
    seq![
        "config"@,
        "new"@,
        "all"@,
        "--scenes-all"@,
        "--filters-all"@,
        "--samplers-all"@,
        "--select"@,
        "--spps"@,
    ] + spps.map_values(|n: int| crate::text::decimal(n))
}

/// The arguments of the `fbksd` that writes a new configuration `all` for every scene
/// and every technique of the current directory, at the given sample budgets.
pub fn fbksd_config(spps: &[i32]) -> (args: Vec<String>)
    ensures
        texts(args@) == fbksd_config_args_of(ints(spps@)),
{
    let mut args: Vec<String> = Vec::new();
    args.push(String::from_str("config"));
    args.push(String::from_str("new"));
    args.push(String::from_str("all"));
    args.push(String::from_str("--scenes-all"));
    args.push(String::from_str("--filters-all"));
    args.push(String::from_str("--samplers-all"));
    args.push(String::from_str("--select"));
    args.push(String::from_str("--spps"));
    let ghost head = texts(args@);
    assert(head =~= seq![
        "config"@,
        "new"@,
        "all"@,
        "--scenes-all"@,
        "--filters-all"@,
        "--samplers-all"@,
        "--select"@,
        "--spps"@,
    ]);
    let ghost tail = ints(spps@).map_values(|n: int| crate::text::decimal(n));
    let mut i: usize = 0;
    assert(texts(args@) =~= head + tail.take(0));
    while i < spps.len()
        invariant
            i <= spps.len(),
            tail == ints(spps@).map_values(|n: int| crate::text::decimal(n)),
            texts(args@) == head + tail.take(i as int),
        decreases spps.len() - i,
    {
        let ghost before = args@;
        let text = crate::text::decimal_string(spps[i]);
        args.push(text);
        assert(texts(args@) =~= texts(before).push(text@));
        i += 1;
        assert(texts(args@) =~= head + tail.take(i as int));
    }
    assert(tail.take(i as int) =~= tail);
    args
}

} // verus!
