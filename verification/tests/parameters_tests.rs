use field_raster::parameters::{
    choose_job, frame_job, load_config, prepare_parameters, save_config, Args, Config, Job,
    JobError, ParameterError,
};

fn config_to_table(config: &Config<f64, f32>) -> toml::Table {
    let mut table = toml::Table::new();
    table.insert("width".to_string(), toml::Value::Integer(config.width as i64));
    table.insert("height".to_string(), toml::Value::Integer(config.height as i64));
    table.insert("max_iterations".to_string(), toml::Value::Integer(config.max_iterations as i64));
    table.insert("output_path".to_string(), toml::Value::String(config.output_path.clone()));
    table.insert("bands".to_string(), toml::Value::Integer(config.bands as i64));
    table.insert("center_x".to_string(), toml::Value::Float(config.center_x));
    table.insert("center_y".to_string(), toml::Value::Float(config.center_y));
    table.insert("zoom".to_string(), toml::Value::Float(config.zoom));
    if let Some(x) = config.end_center_x {
        table.insert("end_center_x".to_string(), toml::Value::Float(x));
    }
    if let Some(y) = config.end_center_y {
        table.insert("end_center_y".to_string(), toml::Value::Float(y));
    }
    if let Some(zoom) = config.end_zoom {
        table.insert("end_zoom".to_string(), toml::Value::Float(zoom));
    }
    table.insert("fps".to_string(), toml::Value::Float(config.fps));
    table.insert("duration".to_string(), toml::Value::Float(config.duration));
    table.insert("frames_dir".to_string(), toml::Value::String(config.frames_dir.clone()));
    table.insert("font_path".to_string(), toml::Value::String(config.font_path.clone()));
    table.insert("zoom_text_x".to_string(), toml::Value::Integer(config.zoom_text_x as i64));
    table.insert("zoom_text_y".to_string(), toml::Value::Integer(config.zoom_text_y as i64));
    table.insert("zoom_font_size".to_string(), toml::Value::Float(config.zoom_font_size as f64));
    table.insert("function".to_string(), toml::Value::String(config.function.clone()));
    table
}

fn table_to_config(table: &toml::Table) -> Config<f64, f32> {
    let integer = |key: &str| table[key].as_integer().unwrap();
    let float = |key: &str| table[key].as_float().unwrap();
    let text = |key: &str| table[key].as_str().unwrap().to_string();
    let optional = |key: &str| table.get(key).map(|value| value.as_float().unwrap());
    Config {
        width: integer("width") as u32,
        height: integer("height") as u32,
        max_iterations: integer("max_iterations") as u32,
        output_path: text("output_path"),
        bands: integer("bands") as u32,
        center_x: float("center_x"),
        center_y: float("center_y"),
        zoom: float("zoom"),
        end_center_x: optional("end_center_x"),
        end_center_y: optional("end_center_y"),
        end_zoom: optional("end_zoom"),
        fps: float("fps"),
        duration: float("duration"),
        frames_dir: text("frames_dir"),
        font_path: text("font_path"),
        zoom_text_x: integer("zoom_text_x") as i32,
        zoom_text_y: integer("zoom_text_y") as i32,
        zoom_font_size: float("zoom_font_size") as f32,
        function: text("function"),
    }
}

#[test]
fn test_config_serialization() {
    let config = Config {
        width: 800,
        height: 600,
        max_iterations: 1000,
        output_path: "test.png".to_string(),
        bands: 16,
        center_x: -0.5,
        center_y: 0.0,
        zoom: 1.0,
        end_center_x: Some(-0.7),
        end_center_y: Some(0.1),
        end_zoom: Some(2.0),
        fps: 30.0,
        duration: 10.0,
        frames_dir: "frames".to_string(),
        font_path: "/System/Library/Fonts/Helvetica.ttc".to_string(),
        zoom_text_x: 10,
        zoom_text_y: 110,
        zoom_font_size: 20.0,
        function: "mandelbrot".to_string(),
    };

    let toml_string = toml::to_string(&config_to_table(&config)).unwrap();
    let deserialized: Config<f64, f32> =
        table_to_config(&toml::from_str::<toml::Table>(&toml_string).unwrap());

    assert_eq!(config.width, deserialized.width);
    assert_eq!(config.height, deserialized.height);
    assert_eq!(config.max_iterations, deserialized.max_iterations);
    assert_eq!(config.output_path, deserialized.output_path);
    assert_eq!(config.bands, deserialized.bands);
    assert_eq!(config.center_x, deserialized.center_x);
    assert_eq!(config.center_y, deserialized.center_y);
    assert_eq!(config.zoom, deserialized.zoom);
    assert_eq!(config.end_center_x, deserialized.end_center_x);
    assert_eq!(config.end_center_y, deserialized.end_center_y);
    assert_eq!(config.end_zoom, deserialized.end_zoom);
    assert_eq!(config.fps, deserialized.fps);
    assert_eq!(config.duration, deserialized.duration);
    assert_eq!(config.frames_dir, deserialized.frames_dir);
    assert_eq!(config.font_path, deserialized.font_path);
    assert_eq!(config.zoom_text_x, deserialized.zoom_text_x);
    assert_eq!(config.zoom_text_y, deserialized.zoom_text_y);
    assert_eq!(config.zoom_font_size, deserialized.zoom_font_size);
    assert_eq!(config.function, deserialized.function);
    assert_eq!(config, deserialized);
}

#[test]
fn test_load_config() {
    let config_content = r#"
width = 1024
height = 768
max_iterations = 2000
output_path = "loaded.png"
bands = 32
center_x = -0.75
center_y = 0.1
zoom = 2.0
end_center_x = -0.8
end_center_y = 0.2
end_zoom = 4.0
fps = 60.0
duration = 15.0
frames_dir = "test_frames"
font_path = "/test/font.ttf"
zoom_text_x = 20
zoom_text_y = 150
zoom_font_size = 24.0
function = "schrodinger"
"#;

    let temp_file = "/tmp/test_config.toml";
    let config = table_to_config(&toml::from_str::<toml::Table>(config_content).unwrap());

    let mut args = Args {
        width: 800,
        height: 600,
        max_iterations: 1000,
        output_path: Some("original.png".to_string()),
        config: Some(temp_file.to_string()),
        bands: 16,
        center_x: -0.5,
        center_y: 0.0,
        zoom: 1.0,
        end_center_x: None,
        end_center_y: None,
        end_zoom: None,
        fps: 30.0,
        duration: 10.0,
        frames_dir: "frames".to_string(),
        font_path: "/System/Library/Fonts/Helvetica.ttc".to_string(),
        zoom_text_x: 10,
        zoom_text_y: 110,
        zoom_font_size: 20.0,
        function: "mandelbrot".to_string(),
    };

    load_config(&mut args, Some(config));

    assert_eq!(args.width, 1024);
    assert_eq!(args.height, 768);
    assert_eq!(args.max_iterations, 2000);
    assert_eq!(args.output_path, Some("loaded.png".to_string()));
    assert_eq!(args.bands, 32);
    assert_eq!(args.center_x, -0.75);
    assert_eq!(args.center_y, 0.1);
    assert_eq!(args.zoom, 2.0);
    assert_eq!(args.end_center_x, Some(-0.8));
    assert_eq!(args.end_center_y, Some(0.2));
    assert_eq!(args.end_zoom, Some(4.0));
    assert_eq!(args.fps, 60.0);
    assert_eq!(args.duration, 15.0);
    assert_eq!(args.frames_dir, "test_frames");
    assert_eq!(args.font_path, "/test/font.ttf");
    assert_eq!(args.zoom_text_x, 20);
    assert_eq!(args.zoom_text_y, 150);
    assert_eq!(args.zoom_font_size, 24.0);
    assert_eq!(args.function, "schrodinger");
    assert_eq!(args.config, Some(temp_file.to_string()));
}

#[test]
fn loading_no_config_leaves_the_parameters() {
    let mut args = sample_args();
    load_config(&mut args, None);
    assert_eq!(args, sample_args());
}

#[test]
fn test_save_config() {
    let args = Args {
        width: 1200,
        height: 900,
        max_iterations: 1500,
        output_path: Some("output.png".to_string()),
        config: None, // Should save config since config is None
        bands: 24,
        center_x: -0.6,
        center_y: 0.05,
        zoom: 1.5,
        end_center_x: Some(-0.65),
        end_center_y: Some(0.1),
        end_zoom: Some(3.0),
        fps: 45.0,
        duration: 12.0,
        frames_dir: "my_frames".to_string(),
        font_path: "/custom/font.ttf".to_string(),
        zoom_text_x: 15,
        zoom_text_y: 120,
        zoom_font_size: 22.0_f32,
        function: "mandelbrot".to_string(),
    };

    let temp_output = "/tmp/test_output.png";
    let saved = save_config(&args, temp_output);
    assert!(saved.is_some());

    let config_content = toml::to_string(&config_to_table(&saved.unwrap())).unwrap();
    let config = table_to_config(&toml::from_str::<toml::Table>(&config_content).unwrap());

    assert_eq!(config.width, 1200);
    assert_eq!(config.height, 900);
    assert_eq!(config.max_iterations, 1500);
    assert_eq!(config.output_path, "/tmp/test_output.png");
    assert_eq!(config.bands, 24);
    assert_eq!(config.center_x, -0.6);
    assert_eq!(config.center_y, 0.05);
    assert_eq!(config.zoom, 1.5);
    assert_eq!(config.end_center_x, Some(-0.65));
    assert_eq!(config.end_center_y, Some(0.1));
    assert_eq!(config.end_zoom, Some(3.0));
    assert_eq!(config.fps, 45.0);
    assert_eq!(config.duration, 12.0);
    assert_eq!(config.frames_dir, "my_frames");
    assert_eq!(config.font_path, "/custom/font.ttf");
    assert_eq!(config.zoom_text_x, 15);
    assert_eq!(config.zoom_text_y, 120);
    assert_eq!(config.zoom_font_size, 22.0);
    assert_eq!(config.function, "mandelbrot");
}

#[test]
fn test_save_config_with_existing_config() {
    let args = Args {
        width: 800,
        height: 600,
        max_iterations: 1000,
        output_path: Some("output.png".to_string()),
        config: Some("existing.conf".to_string()), // Should NOT save config
        bands: 16,
        center_x: -0.5,
        center_y: 0.0,
        zoom: 1.0,
        end_center_x: None,
        end_center_y: None,
        end_zoom: None,
        fps: 30.0,
        duration: 10.0,
        frames_dir: "frames".to_string(),
        font_path: "/System/Library/Fonts/Helvetica.ttc".to_string(),
        zoom_text_x: 10,
        zoom_text_y: 110,
        zoom_font_size: 20.0,
        function: "mandelbrot".to_string(),
    };

    let temp_output = "/tmp/test_output2.png";
    // Nothing is to be saved because config was provided
    assert!(save_config(&args, temp_output).is_none());
}

#[test]
fn saved_parameters_load_back_unchanged() {
    let mut args = sample_args();
    args.end_zoom = Some(8.0);
    let saved = save_config(&args, "picture.png").unwrap();
    let written = toml::to_string(&config_to_table(&saved)).unwrap();
    let read = table_to_config(&toml::from_str::<toml::Table>(&written).unwrap());
    assert_eq!(read, saved);
    let mut loaded = Args {
        width: 1,
        height: 1,
        max_iterations: 1,
        output_path: None,
        config: None,
        bands: 1,
        center_x: 0.0,
        center_y: 0.0,
        zoom: 0.0,
        end_center_x: Some(1.0),
        end_center_y: Some(1.0),
        end_zoom: None,
        fps: 0.0,
        duration: 0.0,
        frames_dir: String::new(),
        font_path: String::new(),
        zoom_text_x: 0,
        zoom_text_y: 0,
        zoom_font_size: 0.0,
        function: String::new(),
    };
    load_config(&mut loaded, Some(read));
    let mut expected = args;
    expected.output_path = Some("picture.png".to_string());
    assert_eq!(loaded, expected);
}

fn sample_args() -> Args<f64, f32> {
    Args {
        width: 800,
        height: 600,
        max_iterations: 1000,
        output_path: Some("test.png".to_string()),
        config: None,
        bands: 16,
        center_x: -0.5,
        center_y: 0.0,
        zoom: 1.0,
        end_center_x: None,
        end_center_y: None,
        end_zoom: None,
        fps: 30.0,
        duration: 10.0,
        frames_dir: "frames".to_string(),
        font_path: "/System/Library/Fonts/Helvetica.ttc".to_string(),
        zoom_text_x: 10,
        zoom_text_y: 110,
        zoom_font_size: 20.0,
        function: "mandelbrot".to_string(),
    }
}

#[test]
fn test_args_default_values() {
    let args = Args {
        width: 800,
        height: 600,
        max_iterations: 1000,
        output_path: Some("test.png".to_string()),
        config: None,
        bands: 16,
        center_x: -0.5,
        center_y: 0.0,
        zoom: 1.0,
        end_center_x: None,
        end_center_y: None,
        end_zoom: None,
        fps: 30.0,
        duration: 10.0,
        frames_dir: "frames".to_string(),
        font_path: "/System/Library/Fonts/Helvetica.ttc".to_string(),
        zoom_text_x: 10,
        zoom_text_y: 110,
        zoom_font_size: 20.0,
        function: "mandelbrot".to_string(),
    };

    assert_eq!(args.width, 800);
    assert_eq!(args.height, 600);
    assert_eq!(args.max_iterations, 1000);
    assert_eq!(args.output_path, Some("test.png".to_string()));
    assert_eq!(args.config, None);
    assert_eq!(args.bands, 16);
    assert_eq!(args.center_x, -0.5);
    assert_eq!(args.center_y, 0.0);
    assert_eq!(args.zoom, 1.0);
    assert_eq!(args.end_center_x, None);
    assert_eq!(args.end_center_y, None);
    assert_eq!(args.end_zoom, None);
    assert_eq!(args.fps, 30.0);
    assert_eq!(args.duration, 10.0);
    assert_eq!(args.frames_dir, "frames");
    assert_eq!(args.font_path, "/System/Library/Fonts/Helvetica.ttc");
    assert_eq!(args.zoom_text_x, 10);
    assert_eq!(args.zoom_text_y, 110);
    assert_eq!(args.zoom_font_size, 20.0);
    assert_eq!(args.function, "mandelbrot");
}

#[test]
fn test_args_custom_values() {
    let args = Args {
        width: 1024,
        height: 768,
        max_iterations: 2000,
        output_path: Some("custom.png".to_string()),
        config: Some("config.conf".to_string()),
        bands: 32,
        center_x: -0.75,
        center_y: 0.1,
        zoom: 2.0,
        end_center_x: Some(-0.8),
        end_center_y: Some(0.2),
        end_zoom: Some(4.0),
        fps: 60.0,
        duration: 15.0,
        frames_dir: "custom_frames".to_string(),
        font_path: "/custom/font.ttf".to_string(),
        zoom_text_x: 20,
        zoom_text_y: 150,
        zoom_font_size: 24.0,
        function: "schrodinger".to_string(),
    };

    assert_eq!(args.width, 1024);
    assert_eq!(args.height, 768);
    assert_eq!(args.max_iterations, 2000);
    assert_eq!(args.output_path, Some("custom.png".to_string()));
    assert_eq!(args.config, Some("config.conf".to_string()));
    assert_eq!(args.bands, 32);
    assert_eq!(args.center_x, -0.75);
    assert_eq!(args.center_y, 0.1);
    assert_eq!(args.zoom, 2.0);
    assert_eq!(args.end_center_x, Some(-0.8));
    assert_eq!(args.end_center_y, Some(0.2));
    assert_eq!(args.end_zoom, Some(4.0));
    assert_eq!(args.fps, 60.0);
    assert_eq!(args.duration, 15.0);
    assert_eq!(args.frames_dir, "custom_frames");
    assert_eq!(args.font_path, "/custom/font.ttf");
    assert_eq!(args.zoom_text_x, 20);
    assert_eq!(args.zoom_text_y, 150);
    assert_eq!(args.zoom_font_size, 24.0);
    assert_eq!(args.function, "schrodinger");
}

#[test]
fn test_end_values_fallback() {
    let args = Args {
        width: 800,
        height: 600,
        max_iterations: 1000,
        output_path: Some("test.mp4".to_string()),
        config: None,
        bands: 16,
        center_x: 1.0,
        center_y: 2.0,
        zoom: 3.0,
        end_center_x: None,
        end_center_y: None,
        end_zoom: None,
        fps: 30.0,
        duration: 1.0,
        frames_dir: "frames".to_string(),
        font_path: "/font.ttf".to_string(),
        zoom_text_x: 10,
        zoom_text_y: 110,
        zoom_font_size: 20.0,
        function: "mandelbrot".to_string(),
    };

    // Test that end values fall back to start values when None
    let (end_cx, end_cy, end_z) = args.end_view();

    assert_eq!(end_cx, 1.0);
    assert_eq!(end_cy, 2.0);
    assert_eq!(end_z, 3.0);
    assert!(!args.is_video());
}

#[test]
fn test_end_values_with_provided_values() {
    let args = Args {
        width: 800,
        height: 600,
        max_iterations: 1000,
        output_path: Some("test.mp4".to_string()),
        config: None,
        bands: 16,
        center_x: 1.0,
        center_y: 2.0,
        zoom: 3.0,
        end_center_x: Some(4.0),
        end_center_y: Some(5.0),
        end_zoom: Some(6.0),
        fps: 30.0,
        duration: 1.0,
        frames_dir: "frames".to_string(),
        font_path: "/font.ttf".to_string(),
        zoom_text_x: 10,
        zoom_text_y: 110,
        zoom_font_size: 20.0,
        function: "mandelbrot".to_string(),
    };

    let (end_cx, end_cy, end_z) = args.end_view();

    assert_eq!(end_cx, 4.0);
    assert_eq!(end_cy, 5.0);
    assert_eq!(end_z, 6.0);
    assert!(args.is_video());
}

#[test]
fn each_end_value_falls_back_alone() {
    let mut args = sample_args();
    args.end_center_y = Some(0.25);
    assert_eq!(args.end_view(), (-0.5, 0.25, 1.0));
    assert!(args.is_video());
    args.end_center_y = None;
    args.end_zoom = Some(4.0);
    assert_eq!(args.end_view(), (-0.5, 0.0, 4.0));
    assert!(args.is_video());
    args.end_zoom = None;
    args.end_center_x = Some(-0.75);
    assert_eq!(args.end_view(), (-0.75, 0.0, 1.0));
    assert!(args.is_video());
}

#[test]
fn jobs_by_function_name() {
    assert_eq!(choose_job("mandelbrot", false), Ok(Job::Mandelbrot));
    assert_eq!(choose_job("schrodinger", false), Ok(Job::Schrodinger));
    assert_eq!(choose_job("manual", true), Ok(Job::Manual));
    assert_eq!(choose_job("grid", true), Ok(Job::Grid));
    assert_eq!(choose_job("grid", false), Err(JobError::GridInputMissing));
    assert_eq!(choose_job("julia", false), Err(JobError::UnknownFunction));
    assert_eq!(choose_job("Mandelbrot", false), Err(JobError::UnknownFunction));
    assert_eq!(choose_job("mandelbrot ", false), Err(JobError::UnknownFunction));
    assert_eq!(choose_job("", true), Err(JobError::UnknownFunction));
    assert_eq!(frame_job("mandelbrot"), Some(Job::Mandelbrot));
    assert_eq!(frame_job("schrodinger"), Some(Job::Schrodinger));
    assert_eq!(frame_job("manual"), None);
    assert_eq!(frame_job("grid"), None);
    assert_eq!(frame_job("video"), None);
}

#[test]
fn an_end_value_asks_for_a_video() {
    let mut args = sample_args();
    assert_eq!(args.job(false), Ok(Job::Mandelbrot));
    args.function = "grid".to_string();
    assert_eq!(args.job(false), Err(JobError::GridInputMissing));
    assert_eq!(args.job(true), Ok(Job::Grid));
    args.end_zoom = Some(2.0);
    assert_eq!(args.job(false), Ok(Job::Video));
    args.function = "nothing".to_string();
    assert_eq!(args.job(false), Ok(Job::Video));
    args.end_zoom = None;
    assert_eq!(args.job(true), Err(JobError::UnknownFunction));
}

#[test]
fn prepared_parameters_carry_the_output_path() {
    let prepared = prepare_parameters(sample_args(), None);
    assert_eq!(prepared, Ok((sample_args(), "test.png".to_string())));

    let mut without = sample_args();
    without.output_path = None;
    assert_eq!(
        prepare_parameters(without.clone(), None),
        Err(ParameterError::OutputPathMissing)
    );

    let config = save_config(&sample_args(), "from_config.png").unwrap();
    let (ready, output_path) = prepare_parameters(without, Some(config)).unwrap();
    assert_eq!(output_path, "from_config.png");
    assert_eq!(ready.output_path, Some("from_config.png".to_string()));
    assert_eq!(ready.width, 800);
}
