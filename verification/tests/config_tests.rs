use velocity::config::{
    dedup_apps, default_apps, default_border, default_fps, default_lighting, default_star_bright,
    default_star_brightest, default_star_dim, default_star_light, default_star_medium,
    default_status_error, default_status_good, default_status_info, default_status_warning,
    default_text_accent, default_text_editor, default_text_primary, default_text_secondary,
    default_text_selected, default_texture_path, default_theme, find_texture_path,
    finish_loaded_apps,
    placeholder_apps, AppEntry,
};
use velocity::theme::{Rgb, Theme};

fn app(name: &str) -> AppEntry {
    AppEntry { name: name.to_string(), command: "run".to_string(), args: None }
}

fn names(apps: &[AppEntry]) -> Vec<String> {
    apps.iter().map(|a| a.name.clone()).collect()
}

#[test]
fn defaults_have_their_values() {
    assert!(!default_lighting());
    assert_eq!(default_fps(), 60);
    assert_eq!(default_text_editor(), "code");
    assert_eq!(default_texture_path(), "textures");
    assert_eq!(default_text_primary(), [255, 255, 255]);
    assert_eq!(default_text_secondary(), [200, 200, 200]);
    assert_eq!(default_text_selected(), [255, 255, 255]);
    assert_eq!(default_text_accent(), [100, 150, 255]);
    assert_eq!(default_star_dim(), [100, 100, 120]);
    assert_eq!(default_star_medium(), [150, 150, 180]);
    assert_eq!(default_star_light(), [200, 200, 220]);
    assert_eq!(default_star_bright(), [230, 230, 250]);
    assert_eq!(default_star_brightest(), [255, 255, 255]);
    assert_eq!(default_status_good(), [0, 255, 0]);
    assert_eq!(default_status_warning(), [255, 255, 0]);
    assert_eq!(default_status_error(), [255, 0, 0]);
    assert_eq!(default_status_info(), [0, 255, 255]);
    assert_eq!(default_border(), [255, 255, 255]);
    let theme = default_theme();
    assert_eq!(theme.text_accent, [100, 150, 255]);
    assert_eq!(theme.star_dim, [100, 100, 120]);
    assert_eq!(theme.status_info, [0, 255, 255]);
}

#[test]
fn default_apps_are_three_programs_and_the_placeholders() {
    let apps = default_apps();
    assert_eq!(apps.len(), 18);
    assert_eq!(apps[0].name, "Terminal");
    assert_eq!(apps[0].command, "open");
    assert_eq!(apps[0].args, Some(vec!["-a".to_string(), "Terminal.app".to_string()]));
    assert_eq!(apps[1].name, "VS Code");
    assert_eq!(apps[1].command, "code");
    assert_eq!(apps[1].args, None);
    assert_eq!(apps[2].name, "Finder");
    assert_eq!(apps[2].args, Some(vec!["-a".to_string(), "Finder.app".to_string()]));
    assert_eq!(apps[3].name, "App 4");
    assert_eq!(apps[3].command, "echo");
    assert_eq!(apps[3].args, Some(vec!["App 4".to_string()]));
    assert_eq!(apps[5].name, "Application 6");
    assert_eq!(apps[5].args, Some(vec!["Application 6".to_string()]));
    assert_eq!(apps[17].name, "App 18");
    let extra = placeholder_apps();
    assert_eq!(names(&extra), names(&apps[3..]));
}

#[test]
fn dedup_keeps_the_first_of_each_name() {
    let mut apps = vec![app("a"), app("b"), app("a"), app("c"), app("b"), app("a")];
    apps[2].command = "second".to_string();
    dedup_apps(&mut apps);
    assert_eq!(names(&apps), vec!["a", "b", "c"]);
    assert_eq!(apps[0].command, "run");
    let mut none: Vec<AppEntry> = Vec::new();
    dedup_apps(&mut none);
    assert!(none.is_empty());
    let mut same = vec![app("x"), app("x"), app("x")];
    dedup_apps(&mut same);
    assert_eq!(names(&same), vec!["x"]);
}

#[test]
fn loaded_apps_get_the_placeholders_once() {
    let mut apps = vec![app("Mail"), app("App 7"), app("Mail")];
    finish_loaded_apps(&mut apps);
    assert_eq!(apps.len(), 16);
    assert_eq!(apps[0].name, "Mail");
    assert_eq!(apps[1].name, "App 7");
    assert_eq!(apps[1].command, "run");
    assert_eq!(apps[2].name, "App 4");
    assert_eq!(apps[4].name, "Application 6");
    assert_eq!(apps[5].name, "App 8");
    let mut again = default_apps();
    finish_loaded_apps(&mut again);
    assert_eq!(names(&again), names(&default_apps()));
}

#[test]
fn theme_hands_out_the_configured_colours() {
    let mut config = default_theme();
    config.border = [1, 2, 3];
    let theme = Theme::new(config);
    assert_eq!(theme.border(), Rgb { r: 1, g: 2, b: 3 });
    assert_eq!(theme.text_primary(), Rgb { r: 255, g: 255, b: 255 });
    assert_eq!(theme.text_secondary(), Rgb { r: 200, g: 200, b: 200 });
    assert_eq!(theme.text_selected(), Rgb { r: 255, g: 255, b: 255 });
    assert_eq!(theme.text_accent(), Rgb { r: 100, g: 150, b: 255 });
    assert_eq!(theme.status_good(), Rgb { r: 0, g: 255, b: 0 });
    assert_eq!(theme.status_warning(), Rgb { r: 255, g: 255, b: 0 });
    assert_eq!(theme.status_error(), Rgb { r: 255, g: 0, b: 0 });
    assert_eq!(theme.status_info(), Rgb { r: 0, g: 255, b: 255 });
    assert_eq!(theme.star_color(0), Rgb { r: 100, g: 100, b: 120 });
    assert_eq!(theme.star_color(1), Rgb { r: 100, g: 100, b: 120 });
    assert_eq!(theme.star_color(2), Rgb { r: 150, g: 150, b: 180 });
    assert_eq!(theme.star_color(3), Rgb { r: 200, g: 200, b: 220 });
    assert_eq!(theme.star_color(4), Rgb { r: 230, g: 230, b: 250 });
    assert_eq!(theme.star_color(5), Rgb { r: 255, g: 255, b: 255 });
    assert_eq!(theme.star_color(255), Rgb { r: 255, g: 255, b: 255 });
}

#[test]
fn textures_are_looked_for_in_the_configured_place_first() {
    assert_eq!(find_texture_path("assets", true, true), "assets");
    assert_eq!(find_texture_path("assets", true, false), "assets");
    assert_eq!(find_texture_path("assets", false, true), "textures");
    assert_eq!(find_texture_path("assets", false, false), "assets");
}
