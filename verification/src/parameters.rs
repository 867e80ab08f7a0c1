//! The parameters of a run, and what is to be done with them.
//!
//! The real-valued settings (centre, zoom, frame rate, duration, font size)
//! are only carried here, never computed with, so the records leave their
//! types open: `R` for the settings of the plane and of time, `S` for the
//! font size.

use vstd::prelude::*;

verus! {

/// The parameters of one run.
#[derive(Clone, Debug, PartialEq)]
pub struct Args<R, S> {
    /// Width of the output image.
    pub width: u32,
    /// Height of the output image.
    pub height: u32,
    /// Maximum number of iterations of the escape-time field.
    pub max_iterations: u32,
    /// Where the image or the video is written.
    pub output_path: Option<String>,
    /// The configuration file that the parameters were loaded from, if any.
    pub config: Option<String>,
    /// Number of colour bands.
    pub bands: u32,
    /// Horizontal centre of the view.
    pub center_x: R,
    /// Vertical centre of the view.
    pub center_y: R,
    /// Zoom level of the view.
    pub zoom: R,
    /// Horizontal centre at the end of an animation.
    pub end_center_x: Option<R>,
    /// Vertical centre at the end of an animation.
    pub end_center_y: Option<R>,
    /// Zoom level at the end of an animation.
    pub end_zoom: Option<R>,
    /// Frames per second of an animation.
    pub fps: R,
    /// Length of an animation in seconds.
    pub duration: R,
    /// Directory of the frame files.
    pub frames_dir: String,
    /// The font file of the annotation.
    pub font_path: String,
    /// Horizontal position of the annotation.
    pub zoom_text_x: i32,
    /// Vertical position of the annotation.
    pub zoom_text_y: i32,
    /// Font size of the annotation.
    pub zoom_font_size: S,
    /// Which picture to make: `mandelbrot`, `schrodinger`, `manual` or `grid`.
    pub function: String,
}

/// The parameters as a configuration file holds them.
#[derive(Clone, Debug, PartialEq)]
pub struct Config<R, S> {
    pub width: u32,
    pub height: u32,
    pub max_iterations: u32,
    pub output_path: String,
    pub bands: u32,
    pub center_x: R,
    pub center_y: R,
    pub zoom: R,
    pub end_center_x: Option<R>,
    pub end_center_y: Option<R>,
    pub end_zoom: Option<R>,
    pub fps: R,
    pub duration: R,
    pub frames_dir: String,
    pub font_path: String,
    pub zoom_text_x: i32,
    pub zoom_text_y: i32,
    pub zoom_font_size: S,
    pub function: String,
}

/// What a run makes.
#[derive(Clone, Copy, Debug, PartialEq, Eq)]
pub enum Job {
    /// An animation from the start view to the end view.
    Video,
    /// One image of the escape-time field.
    Mandelbrot,
    /// One image of the Gaussian density field.
    Schrodinger,
    /// One image of the colour gradient.
    Manual,
    /// A copy of an existing image with the calibration grid on it.
    Grid,
}

/// Why no job can be chosen.
#[derive(Clone, Copy, Debug, PartialEq, Eq)]
pub enum JobError {
    /// The function's name is none of the four.
    UnknownFunction,
    /// The grid was asked for without an image to draw it on.
    GridInputMissing,
}

/// Why the parameters are not complete.
#[derive(Clone, Copy, Debug, PartialEq, Eq)]
pub enum ParameterError {
    /// No output path was given, on the command line or in the configuration.
    OutputPathMissing,
}

/// The parameters that a configuration gives: all those it holds, and with
/// them the note of where `args` was loaded from.
pub open spec fn configured<R, S>(args: Args<R, S>, config: Config<R, S>) -> Args<R, S> {
    Args {
        width: config.width,
        height: config.height,
        max_iterations: config.max_iterations,
        output_path: Some(config.output_path),
        config: args.config,
        bands: config.bands,
        center_x: config.center_x,
        center_y: config.center_y,
        zoom: config.zoom,
        end_center_x: config.end_center_x,
        end_center_y: config.end_center_y,
        end_zoom: config.end_zoom,
        fps: config.fps,
        duration: config.duration,
        frames_dir: config.frames_dir,
        font_path: config.font_path,
        zoom_text_x: config.zoom_text_x,
        zoom_text_y: config.zoom_text_y,
        zoom_font_size: config.zoom_font_size,
        function: config.function,
    }
}

/// The configuration that records a run with these parameters and this
/// output path.
pub open spec fn recorded<R, S>(args: Args<R, S>, output_path: String) -> Config<R, S> {
    Config {
        width: args.width,
        height: args.height,
        max_iterations: args.max_iterations,
        output_path,
        bands: args.bands,
        center_x: args.center_x,
        center_y: args.center_y,
        zoom: args.zoom,
        end_center_x: args.end_center_x,
        end_center_y: args.end_center_y,
        end_zoom: args.end_zoom,
        fps: args.fps,
        duration: args.duration,
        frames_dir: args.frames_dir,
        font_path: args.font_path,
        zoom_text_x: args.zoom_text_x,
        zoom_text_y: args.zoom_text_y,
        zoom_font_size: args.zoom_font_size,
        function: args.function,
    }
}

/// Whether the parameters ask for an animation: they do as soon as one of
/// the end values is given.
pub open spec fn wants_video<R, S>(args: Args<R, S>) -> bool {
    args.end_center_x is Some || args.end_center_y is Some || args.end_zoom is Some
}

/// The view at the end of an animation: centre and zoom, each the start's
/// where no end value is given.
pub open spec fn end_view_of<R, S>(args: Args<R, S>) -> (R, R, R) {
    (
        match args.end_center_x {
            Some(x) => x,
            None => args.center_x,
        },
        match args.end_center_y {
            Some(y) => y,
            None => args.center_y,
        },
        match args.end_zoom {
            Some(zoom) => zoom,
            None => args.zoom,
        },
    )
}

/// The job that the parameters ask for.
pub open spec fn job_of(video: bool, function: Seq<char>, grid_input: bool) -> Result<
    Job,
    JobError,
> {
    if video {
        Ok(Job::Video)
    } else if function == "mandelbrot"@ {
        Ok(Job::Mandelbrot)
    } else if function == "schrodinger"@ {
        Ok(Job::Schrodinger)
    } else if function == "manual"@ {
        Ok(Job::Manual)
    } else if function == "grid"@ {
        if grid_input {
            Ok(Job::Grid)
        } else {
            Err(JobError::GridInputMissing)
        }
    } else {
        Err(JobError::UnknownFunction)
    }
}

/// The field that the frames of an animation show, if the function names
/// one: only the two fields can be animated.
pub open spec fn frame_job_of(function: Seq<char>) -> Option<Job> {
    if function == "mandelbrot"@ {
        Some(Job::Mandelbrot)
    } else if function == "schrodinger"@ {
        Some(Job::Schrodinger)
    } else {
        None
    }
}

/// Parameters that are saved and loaded again are the parameters that were
/// saved, with the output path that they were saved under: the loading
/// leaves nothing of what was there before but the note of where it loaded
/// from.
pub proof fn lemma_saved_parameters_load_back<R, S>(
    args: Args<R, S>,
    output_path: String,
    before: Args<R, S>,
)
    ensures
        configured(before, recorded(args, output_path)) == (Args {
            output_path: Some(output_path),
            config: before.config,
            ..args
        }),
{
}

fn same_text(left: &str, right: &str) -> (same: bool)
    ensures
        same == (left@ == right@),
{
    let left = left.to_owned();
    let right = right.to_owned();
    left == right
}

/// Takes the parameters from a configuration, where one was loaded: then
/// every parameter comes from it and none from the command line.
pub fn load_config<R, S>(args: &mut Args<R, S>, config: Option<Config<R, S>>)
    ensures
        *final(args) == match config {
            Some(config) => configured(*old(args), config),
            None => *old(args),
        },
{
    if let Some(config) = config {
        args.width = config.width;
        args.height = config.height;
        args.max_iterations = config.max_iterations;
        args.output_path = Some(config.output_path);
        args.bands = config.bands;
        args.center_x = config.center_x;
        args.center_y = config.center_y;
        args.zoom = config.zoom;
        args.end_center_x = config.end_center_x;
        args.end_center_y = config.end_center_y;
        args.end_zoom = config.end_zoom;
        args.fps = config.fps;
        args.duration = config.duration;
        args.frames_dir = config.frames_dir;
        args.font_path = config.font_path;
        args.zoom_text_x = config.zoom_text_x;
        args.zoom_text_y = config.zoom_text_y;
        args.zoom_font_size = config.zoom_font_size;
        args.function = config.function;
    }
}

/// The configuration to save after a run, if there is one to save: a run
/// that was loaded from a configuration saves none.
pub fn save_config<R: Copy, S: Copy>(args: &Args<R, S>, output_path: &str) -> (saved: Option<
    Config<R, S>,
>)
    ensures
        saved is None <==> args.config is Some,
        saved matches Some(config) ==> config.output_path@ == output_path@ && config == recorded(
            *args,
            config.output_path,
        ),
{
    if args.config.is_some() {
        None
    } else {
        Some(
            Config {
                width: args.width,
                height: args.height,
                max_iterations: args.max_iterations,
                output_path: String::from_str(output_path),
                bands: args.bands,
                center_x: args.center_x,
                center_y: args.center_y,
                zoom: args.zoom,
                end_center_x: args.end_center_x,
                end_center_y: args.end_center_y,
                end_zoom: args.end_zoom,
                fps: args.fps,
                duration: args.duration,
                frames_dir: args.frames_dir.clone(),
                font_path: args.font_path.clone(),
                zoom_text_x: args.zoom_text_x,
                zoom_text_y: args.zoom_text_y,
                zoom_font_size: args.zoom_font_size,
                function: args.function.clone(),
            },
        )
    }
}

/// Completes the parameters of the command line with a configuration, where
/// one was loaded, and hands them back with the output path, which by then
/// must be known.
pub fn prepare_parameters<R, S>(args: Args<R, S>, config: Option<Config<R, S>>) -> (prepared:
    Result<(Args<R, S>, String), ParameterError>)
    ensures
        ({
            let merged = match config {
                Some(config) => configured(args, config),
                None => args,
            };
            match prepared {
                Ok((ready, output_path)) => merged.output_path == Some(output_path) && ready
                    == merged,
                Err(error) => merged.output_path is None && error
                    == ParameterError::OutputPathMissing,
            }
        }),
{
    let mut args = args;
    load_config(&mut args, config);
    let output_path = match &args.output_path {
        Some(path) => path.clone(),
        None => {
            return Err(ParameterError::OutputPathMissing);
        },
    };
    Ok((args, output_path))
}

impl<R: Copy, S> Args<R, S> {
    /// Whether the parameters ask for an animation.
    pub fn is_video(&self) -> (video: bool)
        ensures
            video == wants_video(*self),
    {
        self.end_center_x.is_some() || self.end_center_y.is_some() || self.end_zoom.is_some()
    }

    /// The centre and the zoom at the end of an animation.
    pub fn end_view(&self) -> (end: (R, R, R))
        ensures
            end == end_view_of(*self),
    {
        let x = match self.end_center_x {
            Some(x) => x,
            None => self.center_x,
        };
        let y = match self.end_center_y {
            Some(y) => y,
            None => self.center_y,
        };
        let zoom = match self.end_zoom {
            Some(zoom) => zoom,
            None => self.zoom,
        };
        (x, y, zoom)
    }

    /// The job that the parameters ask for. `grid_input` says whether an
    /// image was named for the grid to be drawn on.
    pub fn job(&self, grid_input: bool) -> (job: Result<Job, JobError>)
        ensures
            job == job_of(wants_video(*self), self.function@, grid_input),
    {
        if self.is_video() {
            Ok(Job::Video)
        } else {
            choose_job(self.function.as_str(), grid_input)
        }
    }
}

/// The job of a run that makes a single image, by the function's name.
pub fn choose_job(function: &str, grid_input: bool) -> (job: Result<Job, JobError>)
    ensures
        job == job_of(false, function@, grid_input),
{
    if same_text(function, "mandelbrot") {
        Ok(Job::Mandelbrot)
    } else if same_text(function, "schrodinger") {
        Ok(Job::Schrodinger)
    } else if same_text(function, "manual") {
        Ok(Job::Manual)
    } else if same_text(function, "grid") {
        if grid_input {
            Ok(Job::Grid)
        } else {
            Err(JobError::GridInputMissing)
        }
    } else {
        Err(JobError::UnknownFunction)
    }
}

/// The field that the frames of an animation show, or `None` where the
/// function names none of the two fields.
pub fn frame_job(function: &str) -> (job: Option<Job>)
    ensures
        job == frame_job_of(function@),
{
    if same_text(function, "mandelbrot") {
        Some(Job::Mandelbrot)
    } else if same_text(function, "schrodinger") {
        Some(Job::Schrodinger)
    } else {
        None
    }
}

} // verus!
