use fbksd_core::config;
use fbksd_core::corpus::{
    complete_scene, contains_text, fix_scene_paths, load_scenes, missing_scenes, update_scenes,
    RendererDir, SceneFile,
};
use fbksd_core::info::TechniqueType;
use fbksd_core::page::MetricValue;
use fbksd_core::results;
use fbksd_core::workspace::{
    Error, ExecTime, Metric, Renderer, ResultLog, Scene, Technique, Workspace,
};

fn scene(name: &str, ref_img: &str) -> Scene {
    Scene {
        name: String::from(name),
        path: format!("{}/scene.pbrt", name),
        ref_img: String::from(ref_img),
        citation: String::new(),
        png: format!("{}.png", name),
        thumb: format!("{}_thumb256.jpg", name),
    }
}

fn corpus() -> Vec<Renderer> {
    vec![
        Renderer {
            renderer: String::from("pbrt"),
            scenes: vec![scene("s1", "pbrt/s1/ref.exr"), scene("s2", "pbrt/s2/ref.exr")],
        },
        Renderer {
            renderer: String::from("mitsuba"),
            scenes: vec![scene("s3", "mitsuba/s3/ref.exr")],
        },
    ]
}

fn result(scene: &str, spp: i32, time: i64) -> ResultLog {
    ResultLog {
        aborted: false,
        date: String::from("today"),
        exec_time: ExecTime { time_ms: time },
        spp_budget: spp,
        metrics: vec![MetricValue { metric: String::from("PSNR"), bits: 30.5f32.to_bits() }],
        scene_name: String::from(scene),
    }
}

fn technique(id: i32, name: &str, results: Vec<ResultLog>) -> Technique {
    Technique {
        short_name: String::from(name),
        full_name: format!("{} filter", name),
        comment: String::from("comment"),
        citation: String::from("citation"),
        results,
        id,
    }
}

fn metric() -> Metric {
    Metric {
        acronym: String::from("PSNR"),
        name: String::from("Peak signal to noise ratio"),
        reference: String::from("ref"),
        lower_is_better: false,
        has_error_map: true,
        command: String::from("psnr"),
    }
}

#[test]
fn the_page_numbers_scenes_and_results() {
    let wp = Workspace::new(
        corpus(),
        vec![metric()],
        vec![
            technique(42, "Box", vec![result("s1", 2, 10), result("s3", 4, 20)]),
            technique(43, "Gauss", vec![result("s2", 2, 30)]),
        ],
        vec![technique(50, "Rand", vec![result("s3", 8, 40)])],
    );
    let page = wp.export_page().unwrap();

    assert_eq!(page.scenes.len(), 3);
    for (k, s) in page.scenes.iter().enumerate() {
        assert_eq!(s.id, k as i32);
    }
    assert_eq!(page.scenes[0].name, "s1");
    assert_eq!(page.scenes[0].renderer, "pbrt");
    assert_eq!(page.scenes[0].reference, "s1.png");
    assert_eq!(page.scenes[0].thumbnail, "s1_thumb256.jpg");
    assert_eq!(page.scenes[2].name, "s3");
    assert_eq!(page.scenes[2].renderer, "mitsuba");

    assert_eq!(page.metrics.len(), 1);
    assert_eq!(page.metrics[0].acronym, "PSNR");
    assert!(page.metrics[0].has_error_map);
    assert!(!page.metrics[0].lower_is_better);

    assert_eq!(page.results.len(), 3);
    assert_eq!(page.results[0].scene_id, 0);
    assert_eq!(page.results[0].filter_version_id, 42);
    assert_eq!(page.results[0].spp, 2);
    assert_eq!(page.results[0].exec_time, 10);
    assert_eq!(f32::from_bits(page.results[0].metrics[0].bits), 30.5);
    assert_eq!(page.results[1].scene_id, 2);
    assert_eq!(page.results[1].filter_version_id, 42);
    assert_eq!(page.results[2].scene_id, 1);
    assert_eq!(page.results[2].filter_version_id, 43);
    assert_eq!(page.samplers_results.len(), 1);
    assert_eq!(page.samplers_results[0].scene_id, 2);
    assert_eq!(page.samplers_results[0].filter_version_id, 50);

    assert_eq!(page.filters.len(), 2);
    assert_eq!(page.filters[0].id, 42);
    assert_eq!(page.filters[0].name, "Box");
    assert_eq!(page.filters[0].full_name, "Box filter");
    assert_eq!(page.filters[0].versions.len(), 1);
    assert_eq!(page.filters[0].versions[0].id, 42);
    assert_eq!(page.filters[0].versions[0].tag, "default");
    assert_eq!(page.filters[0].versions[0].status, "ready");
    assert_eq!(page.filters[0].versions[0].message, "comment");
    assert_eq!(page.filters[0].versions[0].results_ids, vec![0, 1]);
    assert_eq!(page.filters[1].versions[0].results_ids, vec![2]);
    assert_eq!(page.samplers.len(), 1);
    assert_eq!(page.samplers[0].versions[0].results_ids, vec![0]);
}

#[test]
fn scene_ids_do_not_depend_on_the_techniques() {
    let empty = Workspace::new(corpus(), vec![], vec![], vec![]);
    let full = Workspace::new(
        corpus(),
        vec![],
        vec![technique(1, "Box", vec![result("s2", 2, 1)])],
        vec![],
    );
    let a = empty.export_page().unwrap();
    let b = full.export_page().unwrap();
    let ids = |p: &fbksd_core::page::Page| -> Vec<(i32, String)> {
        p.scenes.iter().map(|s| (s.id, s.name.clone())).collect()
    };
    assert_eq!(ids(&a), ids(&b));
}

#[test]
fn a_result_for_an_unknown_scene_gives_no_page() {
    let wp = Workspace::new(
        corpus(),
        vec![],
        vec![technique(1, "Box", vec![result("nowhere", 2, 1)])],
        vec![],
    );
    assert!(wp.export_page().is_none());
}

#[test]
fn a_scene_that_comes_twice_is_referred_to_by_its_last_id() {
    let mut c = corpus();
    c[1].scenes.push(scene("s1", "s1/ref.exr"));
    let wp = Workspace::new(c, vec![], vec![technique(1, "Box", vec![result("s1", 2, 1)])], vec![]);
    let page = wp.export_page().unwrap();
    assert_eq!(page.scenes.len(), 4);
    assert_eq!(page.results[0].scene_id, 3);
}

#[test]
fn a_loaded_technique_replaces_the_one_with_its_id() {
    let mut wp = Workspace::new(
        corpus(),
        vec![],
        vec![technique(1, "Box", vec![]), technique(2, "Gauss", vec![])],
        vec![],
    );
    wp.load_technique(TechniqueType::DENOISER, technique(2, "Gauss2", vec![result("s1", 2, 1)]));
    assert_eq!(wp.denoisers().len(), 2);
    assert_eq!(wp.denoisers()[1].short_name, "Gauss2");
    wp.load_technique(TechniqueType::DENOISER, technique(3, "New", vec![]));
    assert_eq!(wp.denoisers().len(), 3);
    assert_eq!(wp.denoisers()[2].id, 3);
    wp.load_technique(TechniqueType::SAMPLER, technique(1, "Rand", vec![]));
    assert_eq!(wp.samplers().len(), 1);
    assert_eq!(wp.denoisers()[0].short_name, "Box");
    assert_eq!(wp.renderers().len(), 2);
    assert_eq!(wp.metrics().len(), 0);
}

#[test]
fn missing_scenes_are_those_without_a_result() {
    let tech = technique(1, "Box", vec![result("s1", 2, 1), result("s2", 2, 1)]);
    assert_eq!(missing_scenes(&corpus(), &tech), vec![String::from("s3")]);
    let none = technique(1, "Box", vec![]);
    assert_eq!(missing_scenes(&corpus(), &none), vec!["s1", "s2", "s3"]);
    let all = technique(
        1,
        "Box",
        vec![result("s1", 2, 1), result("s2", 2, 1), result("s3", 2, 1)],
    );
    assert!(missing_scenes(&corpus(), &all).is_empty());
    let mut twice = corpus();
    twice[1].scenes.push(scene("s1", "x"));
    assert_eq!(missing_scenes(&twice, &none), vec!["s1", "s2", "s3"]);
    assert!(contains_text(&vec![String::from("a")], "a"));
    assert!(!contains_text(&vec![String::from("a")], "b"));
}

#[test]
fn image_paths_are_completed_under_the_renderer() {
    let s = complete_scene(&scene("s1", "pbrt/conference/reference.exr")).unwrap();
    assert_eq!(s.ref_img, "pbrt/conference/reference.exr");
    assert_eq!(s.png, "pbrt/conference/reference.png");
    assert_eq!(s.thumb, "pbrt/conference/reference_thumb256.jpg");
    assert_eq!(s.name, "s1");
    assert_eq!(s.path, "s1/scene.pbrt");
    assert!(complete_scene(&scene("s1", "")).is_none());
    assert!(complete_scene(&scene("s1", "pbrt/")).is_none());

    let done = load_scenes(&corpus()).unwrap();
    assert_eq!(done.len(), 2);
    assert_eq!(done[1].renderer, "mitsuba");
    assert_eq!(done[1].scenes[0].ref_img, "mitsuba/s3/ref.exr");
    assert_eq!(done[1].scenes[0].png, "mitsuba/s3/ref.png");
    assert_eq!(done[0].scenes[1].thumb, "pbrt/s2/ref_thumb256.jpg");
    let mut bad = corpus();
    bad[1].scenes[0].ref_img = String::from("dir/..");
    assert!(load_scenes(&bad).is_none());
}

#[test]
fn the_scene_cache_is_built_from_the_scene_files() {
    let dirs = vec![
        RendererDir {
            name: String::from("pbrt"),
            files: vec![
                SceneFile {
                    path: String::from("conference/fbksd-scene.json"),
                    scenes: vec![scene("conf", "ref.exr")],
                },
                SceneFile {
                    path: String::from("fbksd-scenes.json"),
                    scenes: vec![scene("a", "a/ref.exr"), scene("b", "b/ref.exr")],
                },
            ],
        },
        RendererDir { name: String::from("empty"), files: vec![] },
    ];
    let cache = update_scenes(&dirs);
    assert_eq!(cache.len(), 2);
    assert_eq!(cache[0].renderer, "pbrt");
    assert_eq!(cache[0].scenes.len(), 3);
    assert_eq!(cache[0].scenes[0].path, "pbrt/conference/conf/scene.pbrt");
    assert_eq!(cache[0].scenes[0].ref_img, "pbrt/conference/ref.exr");
    assert_eq!(cache[0].scenes[1].path, "pbrt/a/scene.pbrt");
    assert_eq!(cache[0].scenes[1].ref_img, "pbrt/a/ref.exr");
    assert_eq!(cache[0].scenes[2].ref_img, "pbrt/b/ref.exr");
    for s in &cache[0].scenes {
        assert!(s.path.starts_with("pbrt/"));
        assert!(s.ref_img.starts_with("pbrt/"));
    }
    let completed = load_scenes(&cache).unwrap();
    assert_eq!(completed[0].scenes[0].ref_img, "pbrt/conference/ref.exr");
    assert_eq!(completed[0].scenes[0].png, "pbrt/conference/ref.png");
    assert_eq!(completed[0].scenes[0].thumb, "pbrt/conference/ref_thumb256.jpg");
    assert_eq!(cache[1].renderer, "empty");
    assert!(cache[1].scenes.is_empty());

    let again = update_scenes(&dirs);
    let flat = |c: &Vec<Renderer>| -> Vec<(String, String, String)> {
        c.iter()
            .flat_map(|r| r.scenes.iter().map(|s| (r.renderer.clone(), s.path.clone(), s.ref_img.clone())))
            .collect()
    };
    assert_eq!(flat(&cache), flat(&again));

    let fixed = fix_scene_paths(&scene("x", "/abs/ref.exr"), "r", "d/e/f.json");
    assert_eq!(fixed.path, "r/d/e/x/scene.pbrt");
    assert_eq!(fixed.ref_img, "/abs/ref.exr");
    let own = fix_scene_paths(&scene("s", "ref.exr"), "r", "fbksd-scene.json");
    assert_eq!(own.path, "r/s/scene.pbrt");
    assert_eq!(own.ref_img, "r/ref.exr");
}

#[test]
fn file_names_tell_the_scene_and_the_metric() {
    assert_eq!(results::logs_pattern("/d/w/u"), "/d/w/u/results/*/*/*_log.json");
    assert_eq!(
        results::scene_name_of_log("/d/w/u/results/default/conference/16_0_log.json"),
        Some(String::from("conference"))
    );
    assert_eq!(results::scene_name_of_log("log.json"), None);
    assert_eq!(results::value_files_pattern(16), "16_0_*_value.json");
    assert_eq!(
        results::metric_of_value_file("16_0_PSNR_value.json"),
        Some(String::from("PSNR"))
    );
    assert_eq!(
        results::metric_of_value_file("results/x/4_0_MS-SSIM_value.json"),
        Some(String::from("MS-SSIM"))
    );
    assert_eq!(results::metric_of_value_file("16_0_log.json"), None);
    assert_eq!(results::metric_of_value_file("16_1_PSNR_value.json"), None);
}

#[test]
fn the_path_of_a_published_workspace_tells_the_technique() {
    assert_eq!(
        results::published_technique_id(
            TechniqueType::DENOISER,
            "/d/workspaces/denoisers/42/published"
        ),
        Some(42)
    );
    assert_eq!(
        results::published_technique_id(
            TechniqueType::SAMPLER,
            "/d/workspaces/denoisers/42/published"
        ),
        None
    );
    assert_eq!(
        results::published_technique_id(
            TechniqueType::SAMPLER,
            "/d/workspaces/samplers/7/published"
        ),
        Some(7)
    );
    assert_eq!(
        results::published_technique_id(
            TechniqueType::DENOISER,
            "/d/workspaces/denoisers/99999999999/published"
        ),
        None
    );
    assert_eq!(results::technique_id_of(Some(String::from("12"))), Some(12));
    assert_eq!(results::technique_id_of(Some(String::from("x"))), None);
    assert_eq!(results::technique_id_of(None), None);
}

#[test]
fn a_configuration_groups_the_scenes_by_renderer() {
    let c = config::gen_config(
        &corpus(),
        &vec![String::from("Box")],
        &vec![],
        &vec![
            String::from("s3"),
            String::from("s1"),
            String::from("gone"),
            String::from("s2"),
        ],
        &[2, 4],
    );
    assert_eq!(c.filters.len(), 1);
    assert_eq!(c.filters[0].name, "Box");
    assert_eq!(c.filters[0].versions, vec!["default"]);
    assert!(c.samplers.is_empty());
    assert_eq!(c.renderers.len(), 2);
    assert_eq!(c.renderers[0].name, "mitsuba");
    assert_eq!(c.renderers[0].scenes.len(), 1);
    assert_eq!(c.renderers[0].scenes[0].name, "s3");
    assert_eq!(c.renderers[0].scenes[0].spps, vec![2, 4]);
    assert_eq!(c.renderers[1].name, "pbrt");
    assert_eq!(c.renderers[1].scenes.len(), 2);
    assert_eq!(c.renderers[1].scenes[0].name, "s1");
    assert_eq!(c.renderers[1].scenes[1].name, "s2");
    assert_eq!(c.renderers[1].scenes[1].spps, vec![2, 4]);
    assert_eq!(config::scene_renderer(&corpus(), "s2"), Some(&String::from("pbrt")));
    assert_eq!(config::scene_renderer(&corpus(), "gone"), None);
}

#[test]
fn a_configuration_is_built_piece_by_piece() {
    let mut c = config::Config::new();
    c.add_technique(TechniqueType::SAMPLER, "Rand");
    c.add_technique(TechniqueType::DENOISER, "Box");
    assert_eq!(c.samplers[0].name, "Rand");
    assert_eq!(c.filters[0].versions, vec!["default"]);
    let s = config::Scene::new("s1");
    assert!(s.spps.is_empty());
    c.renderers.push(config::Renderer::new("pbrt", vec![s]));
    c.set_spps(&[1, 2, 3]);
    assert_eq!(c.renderers[0].name, "pbrt");
    assert_eq!(c.renderers[0].scenes[0].name, "s1");
    assert_eq!(c.renderers[0].scenes[0].spps, vec![1, 2, 3]);
    assert_eq!(config::Technique::new("x").name, "x");
    assert_eq!(
        config::fbksd_config(&[2, 16]),
        vec![
            "config",
            "new",
            "all",
            "--scenes-all",
            "--filters-all",
            "--samplers-all",
            "--select",
            "--spps",
            "2",
            "16"
        ]
    );
}

#[test]
fn workspace_errors_have_their_texts() {
    assert_eq!(Error::UuidNotFound.message(), "uuid not found for the given technique");
    assert_eq!(Error::Unspecified.message(), "unspecified error");
}
