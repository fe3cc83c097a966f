use crate::utils::{decimal, id_selector, push_decimal};
use vstd::prelude::*;

verus! {

/// The image that a carousel shows first.
pub const INITIAL_IMAGE_INDEX: u32 = 0;

/// The classes of every slide; slides other than the first add ` hidden`.
pub const ITEM_BASE_CLASS: &'static str = "relative h-full float-left -mr-[100%] w-full transition-transform duration-[600ms] ease-in-out motion-reduce:transition-none";

/// The classes of a previous/next button that come before its position class.
pub const BUTTON_CLASS_HEAD: &'static str = "absolute bottom-0 ";

/// The classes of a previous/next button that come after its position class.
pub const BUTTON_CLASS_TAIL: &'static str = " top-0 z-[1] flex w-[15%] items-center justify-center border-0 bg-none p-0 text-center text-white opacity-50 transition-opacity duration-150 ease-[cubic-bezier(0.25,0.1,0.25,1.0)] hover:text-white hover:no-underline hover:opacity-90 hover:outline-none focus:text-white focus:no-underline focus:opacity-90 focus:outline-none motion-reduce:transition-none";

/// An image shown in a carousel.
#[derive(Clone, Eq, Hash)]
pub struct CarouselImage {
    /// A title shown on top of the image
    pub title: String,
    /// A subtitle shown on top of the image
    pub subtitle: String,
    /// The source URL of the image file
    pub src: String,
    /// An `alt` text for accessibility
    pub alt: String,
}

impl PartialEq for CarouselImage {
    fn eq(&self, other: &CarouselImage) -> (r: bool) {
        self.title == other.title && self.subtitle == other.subtitle && self.src == other.src
            && self.alt == other.alt
    }
}

impl vstd::std_specs::cmp::PartialEqSpecImpl for CarouselImage {
    open spec fn obeys_eq_spec() -> bool {
        true
    }

    open spec fn eq_spec(&self, other: &CarouselImage) -> bool {
        &&& self.title@ == other.title@
        &&& self.subtitle@ == other.subtitle@
        &&& self.src@ == other.src@
        &&& self.alt@ == other.alt@
    }
}

impl CarouselImage {
    /// A copy of this image, text for text.
    pub fn copy(&self) -> (r: CarouselImage)
        ensures
            r.title@ == self.title@,
            r.subtitle@ == self.subtitle@,
            r.src@ == self.src@,
            r.alt@ == self.alt@,
    {
        CarouselImage {
            title: self.title.clone(),
            subtitle: self.subtitle.clone(),
            src: self.src.clone(),
            alt: self.alt.clone(),
        }
    }

    /// The image with every text empty.
    pub fn blank() -> (r: CarouselImage)
        ensures
            r.title@.len() == 0,
            r.subtitle@.len() == 0,
            r.src@.len() == 0,
            r.alt@.len() == 0,
    {
        CarouselImage {
            title: String::new(),
            subtitle: String::new(),
            src: String::new(),
            alt: String::new(),
        }
    }
}

/// The image that the slide at `index` shows: the image at that index, or the blank
/// image where the list is shorter (a list may shrink before its slides are removed).
pub fn image_at(images: &Vec<CarouselImage>, index: usize) -> (r: CarouselImage)
    ensures
        index < images@.len() ==> {
            &&& r.title@ == images@[index as int].title@
            &&& r.subtitle@ == images@[index as int].subtitle@
            &&& r.src@ == images@[index as int].src@
            &&& r.alt@ == images@[index as int].alt@
        },
        index >= images@.len() ==> {
            &&& r.title@.len() == 0
            &&& r.subtitle@.len() == 0
            &&& r.src@.len() == 0
            &&& r.alt@.len() == 0
        },
{
    if index < images.len() {
        images[index].copy()
    } else {
        CarouselImage::blank()
    }
}

/// The class list of the slide at `index`: only the first slide starts visible.
pub fn item_class(index: usize) -> (r: String)
    ensures
        r@ == (if index == 0 {
            ITEM_BASE_CLASS@
        } else {
            ITEM_BASE_CLASS@ + " hidden"@
        }),
{
    let mut class = String::from_str(ITEM_BASE_CLASS);
    if index != 0 {
        class.append(" hidden");
    }
    class
}

/// Whether the slide or indicator at `index` starts as the active one.
pub fn starts_active(index: usize) -> (r: bool)
    ensures
        r == (index == 0),
{
    index == 0
}

/// The `aria-current` value of the indicator at `index`: `"true"` on the first one,
/// absent on the others.
pub fn indicator_aria_current(index: usize) -> (r: Option<&'static str>)
    ensures
        index == 0 ==> (r matches Some(s) && s@ == "true"@),
        index != 0 ==> r is None,
{
    if index == 0 {
        Some("true")
    } else {
        None
    }
}

/// The accessible label of the indicator at `index`: `Image ` and the index in decimal.
pub fn indicator_label(index: usize) -> (r: String)
    ensures
        r@ == "Image "@ + decimal(index as nat),
{
    let mut label = String::from_str("Image ");
    push_decimal(&mut label, index);
    label
}

/// The `data-te-target` value of the carousel's controls: a selector of its element.
pub fn carousel_target(carousel_id: &str) -> (r: String)
    ensures
        r@ == seq!['#'] + carousel_id@,
{
    id_selector(carousel_id)
}

/// The two buttons at the carousel's sides.
#[derive(Clone, Copy, PartialEq, Eq, Debug, Structural)]
pub enum PrevNext {
    /// The button that goes to the previous image
    Prev,
    /// The button that goes to the next image
    Next,
}

impl PrevNext {
    /// The side of the carousel at which the button stands.
    pub open spec fn spec_position(self) -> Seq<char> {
        match self {
            PrevNext::Prev => "left-0"@,
            PrevNext::Next => "right-0"@,
        }
    }

    /// The side of the carousel at which the button stands.
    pub fn position(self) -> (r: &'static str)
        ensures
            r@ == self.spec_position(),
    {
        match self {
            PrevNext::Prev => "left-0",
            PrevNext::Next => "right-0",
        }
    }

    /// The `data-te-slide` value of the button.
    pub fn slide(self) -> (r: &'static str)
        ensures
            r@ == (match self {
                PrevNext::Prev => "prev"@,
                PrevNext::Next => "next"@,
            }),
    {
        match self {
            PrevNext::Prev => "prev",
            PrevNext::Next => "next",
        }
    }

    /// The path of the button's arrow icon.
    pub fn svg_path(self) -> (r: &'static str)
        ensures
            r@ == (match self {
                PrevNext::Prev => "M15.75 19.5L8.25 12l7.5-7.5"@,
                PrevNext::Next => "M8.25 4.5l7.5 7.5-7.5 7.5"@,
            }),
    {
        match self {
            PrevNext::Prev => "M15.75 19.5L8.25 12l7.5-7.5",
            PrevNext::Next => "M8.25 4.5l7.5 7.5-7.5 7.5",
        }
    }

    /// The button's text for screen readers.
    pub fn alt(self) -> (r: &'static str)
        ensures
            r@ == (match self {
                PrevNext::Prev => "Previous"@,
                PrevNext::Next => "Next"@,
            }),
    {
        match self {
            PrevNext::Prev => "Previous",
            PrevNext::Next => "Next",
        }
    }

    /// The button's class list, with its position class in the middle.
    pub fn button_class(self) -> (r: String)
        ensures
            r@ == BUTTON_CLASS_HEAD@ + self.spec_position() + BUTTON_CLASS_TAIL@,
    {
        let mut class = String::from_str(BUTTON_CLASS_HEAD);
        class.append(self.position());
        class.append(BUTTON_CLASS_TAIL);
        class
    }
}

/// The options handed to the carousel widget when it is created.
pub struct CarouselOptions {
    /// Milliseconds between two slides
    pub interval: i32,
    /// When the slideshow starts
    pub ride: String,
    /// What pauses the slideshow
    pub pause: String,
}

/// The options of a carousel that slides every `interval_millis` milliseconds and
/// pauses under the pointer; `None` where the interval does not fit in an `i32`.
pub fn carousel_options(interval_millis: u128) -> (r: Option<CarouselOptions>)
    ensures
        interval_millis > i32::MAX ==> r is None,
        interval_millis <= i32::MAX ==> (r matches Some(o) && {
            &&& o.interval == interval_millis
            &&& o.ride@ == "carousel"@
            &&& o.pause@ == "hover"@
        }),
{
    if interval_millis > 2147483647u128 {
        None
    } else {
        Some(
            CarouselOptions {
                interval: interval_millis as i32,
                ride: String::from_str("carousel"),
                pause: String::from_str("hover"),
            },
        )
    }
}

/// What the carousel widget is told to do with its slideshow.
#[derive(Clone, Copy, PartialEq, Eq, Debug, Structural)]
pub enum SlideshowAction {
    /// Start or resume sliding
    Cycle,
    /// Stop sliding
    Pause,
    /// Leave the slideshow as it is
    Keep,
}

/// The action right after the widget is created: it slides on its own, so it is
/// paused where the slideshow should not run.
pub fn initial_slideshow_action(running: bool) -> (r: SlideshowAction)
    ensures
        r == (if running {
            SlideshowAction::Keep
        } else {
            SlideshowAction::Pause
        }),
{
    if running {
        SlideshowAction::Keep
    } else {
        SlideshowAction::Pause
    }
}

/// One step of keeping the slideshow in line with the wish that it run.
///
/// `previous` is what the last step recorded (`None` before the first step). Before
/// the widget exists nothing is done and `false` is recorded; afterwards the widget
/// is told to cycle or pause only where the wish differs from what was recorded (or
/// nothing was), and the wish is recorded.
pub fn slideshow_step(widget_ready: bool, previous: Option<bool>, running: bool) -> (r: (
    SlideshowAction,
    bool,
))
    ensures
        !widget_ready ==> r == (SlideshowAction::Keep, false),
        widget_ready ==> r.1 == running,
        widget_ready && previous == Some(running) ==> r.0 == SlideshowAction::Keep,
        widget_ready && previous != Some(running) ==> r.0 == (if running {
            SlideshowAction::Cycle
        } else {
            SlideshowAction::Pause
        }),
{
    if !widget_ready {
        (SlideshowAction::Keep, false)
    } else if running {
        match previous {
            Some(true) => (SlideshowAction::Keep, true),
            _ => (SlideshowAction::Cycle, true),
        }
    } else {
        match previous {
            Some(false) => (SlideshowAction::Keep, false),
            _ => (SlideshowAction::Pause, false),
        }
    }
}

/// An event that the carousel widget sends while it changes images.
#[derive(Clone, Copy, PartialEq, Eq, Debug, Structural)]
pub enum SlideEvent {
    /// A slide towards the image at this index has begun
    Slide(i32),
    /// The slide has ended and the image at this index is shown
    Slid(i32),
}

/// What a carousel event cannot carry.
#[derive(Clone, Copy, PartialEq, Eq, Debug, Structural)]
pub enum CarouselError {
    /// The widget reported a negative image index
    NegativeSlideIndex,
}

impl CarouselError {
    /// A sentence that describes the error.
    pub fn message(&self) -> (r: &'static str)
        ensures
            r@ == "negative slide index"@,
    {
        "negative slide index"
    }
}

/// The current image after an event: none while a slide runs, the reached image
/// once it has ended.
pub fn current_image_after(event: SlideEvent) -> (r: Result<Option<u32>, CarouselError>)
    ensures
        event matches SlideEvent::Slide(_) ==> r == Ok::<Option<u32>, CarouselError>(None),
        event matches SlideEvent::Slid(i) ==> (i >= 0 ==> r == Ok::<Option<u32>, CarouselError>(
            Some(i as u32),
        )) && (i < 0 ==> r == Err::<Option<u32>, CarouselError>(
            CarouselError::NegativeSlideIndex,
        )),
{
    match event {
        SlideEvent::Slide(_) => Ok(None),
        SlideEvent::Slid(i) => {
            if i >= 0 {
                Ok(Some(i as u32))
            } else {
                Err(CarouselError::NegativeSlideIndex)
            }
        },
    }
}

} // verus!
