use leptos_twelements::components::alert::ALERT_BASE_CLASS;
use leptos_twelements::components::carousel::{
    carousel_options, carousel_target, current_image_after, image_at, indicator_aria_current,
    indicator_label, initial_slideshow_action, item_class, slideshow_step, starts_active,
    CarouselError, PrevNext, SlideEvent, SlideshowAction, INITIAL_IMAGE_INDEX, ITEM_BASE_CLASS,
};
use leptos_twelements::components::input::{INPUT_BASE_CLASS, INPUT_EDITABLE_CLASS, INPUT_LOCKED_CLASS};
use leptos_twelements::components::modal::ModalError;
use leptos_twelements::components::switch::{SWITCH_BASE_CLASS, SWITCH_DISABLED_CLASS};
use leptos_twelements::components::{
    alert_class, find_option, input_class, sidenav_options, spinner_class, switch_class,
    AlertType, CarouselImage, InputType, ModalCommand, ModalEvent, ModalState, SelectError,
    SpinnerSize,
};

fn image(title: &str, subtitle: &str, src: &str, alt: &str) -> CarouselImage {
    CarouselImage {
        title: title.to_string(),
        subtitle: subtitle.to_string(),
        src: src.to_string(),
        alt: alt.to_string(),
    }
}

#[test]
fn alert_type_classes() {
    assert_eq!(AlertType::Primary.class(), "bg-primary-100 text-primary-600");
    assert_eq!(AlertType::Secondary.class(), "bg-secondary-100 text-secondary-800");
    assert_eq!(AlertType::Success.class(), "bg-success-100 text-success-700");
    assert_eq!(AlertType::Danger.class(), "bg-danger-100 text-danger-700");
    assert_eq!(AlertType::Warning.class(), "bg-warning-100 text-warning-800");
    assert_eq!(AlertType::Info.class(), "bg-info-100 text-info-800");
    assert_eq!(AlertType::Light.class(), "bg-neutral-50 text-neutral-600");
    assert_eq!(AlertType::Dark.class(), "bg-neutral-800 text-neutral-50 dark:bg-neutral-900");
}

#[test]
fn alert_class_joins_common_and_type_classes() {
    assert_eq!(
        alert_class(AlertType::Primary),
        "mb-4 rounded-lg px-6 py-5 text-base bg-primary-100 text-primary-600"
    );
    assert_eq!(
        alert_class(AlertType::Dark),
        "mb-4 rounded-lg px-6 py-5 text-base bg-neutral-800 text-neutral-50 dark:bg-neutral-900"
    );
    assert!(alert_class(AlertType::Info).starts_with(ALERT_BASE_CLASS));
}

#[test]
fn spinner_classes() {
    assert_eq!(SpinnerSize::Small.class(), "h-4 w-4");
    assert_eq!(SpinnerSize::Medium.class(), "h-8 w-8");
    assert_eq!(SpinnerSize::Large.class(), "h-12 w-12");
    assert_eq!(
        spinner_class(SpinnerSize::Medium),
        "inline-block animate-spin rounded-full border-4 border-solid border-current border-r-transparent align-[-0.125em] motion-reduce:animate-[spin_1.5s_linear_infinite] h-8 w-8"
    );
}

#[test]
fn input_type_attributes() {
    assert_eq!(InputType::Text.html_attrib(), "text");
    assert_eq!(InputType::Email.html_attrib(), "email");
    assert_eq!(InputType::Password.html_attrib(), "password");
    assert_eq!(InputType::Number.html_attrib(), "number");
    assert_eq!(InputType::Tel.html_attrib(), "tel");
    assert_eq!(InputType::Url.html_attrib(), "url");
}

#[test]
fn input_background_follows_editability() {
    let editable = format!("{}{}", INPUT_BASE_CLASS, INPUT_EDITABLE_CLASS);
    let locked = format!("{}{}", INPUT_BASE_CLASS, INPUT_LOCKED_CLASS);
    assert_eq!(input_class(false, false), editable);
    assert_eq!(input_class(true, false), locked);
    assert_eq!(input_class(false, true), locked);
    assert_eq!(input_class(true, true), locked);
    assert!(input_class(false, false).ends_with(" bg-transparent"));
    assert!(input_class(true, false).ends_with(" bg-neutral-100 dark:bg-neutral-700"));
}

#[test]
fn switch_class_marks_disabled() {
    assert_eq!(switch_class(false), SWITCH_BASE_CLASS);
    assert_eq!(switch_class(true), format!("{}{}", SWITCH_BASE_CLASS, SWITCH_DISABLED_CLASS));
    assert!(switch_class(true).ends_with(" disabled:cursor-default disabled:opacity-60"));
}

#[test]
fn sidenav_options_point_at_content() {
    let o = sidenav_options("main-content");
    assert!(!o.hidden);
    assert_eq!(o.mode, "side");
    assert_eq!(o.content, "#main-content");
}

#[test]
fn carousel_image_lookup() {
    let images = vec![image("A", "a", "/a.png", "first"), image("B", "b", "/b.png", "second")];
    let second = image_at(&images, 1);
    assert!(second == images[1]);
    assert_eq!(second.src, "/b.png");
    let missing = image_at(&images, 2);
    assert_eq!(missing.title, "");
    assert_eq!(missing.subtitle, "");
    assert_eq!(missing.src, "");
    assert_eq!(missing.alt, "");
    assert!(image_at(&Vec::new(), 0) == CarouselImage::blank());
}

#[test]
fn carousel_image_equality() {
    assert!(image("A", "a", "/a.png", "x") == image("A", "a", "/a.png", "x"));
    assert!(image("A", "a", "/a.png", "x") != image("A", "a", "/a.png", "y"));
    assert!(image("A", "a", "/a.png", "x").copy() == image("A", "a", "/a.png", "x"));
}

#[test]
fn carousel_slides_and_indicators() {
    assert_eq!(item_class(0), ITEM_BASE_CLASS);
    assert_eq!(item_class(3), format!("{} hidden", ITEM_BASE_CLASS));
    assert!(starts_active(0));
    assert!(!starts_active(1));
    assert_eq!(indicator_aria_current(0), Some("true"));
    assert_eq!(indicator_aria_current(2), None);
    assert_eq!(indicator_label(0), "Image 0");
    assert_eq!(indicator_label(12), "Image 12");
    assert_eq!(carousel_target("gallery"), "#gallery");
    assert_eq!(INITIAL_IMAGE_INDEX, 0);
}

#[test]
fn carousel_buttons() {
    assert_eq!(PrevNext::Prev.position(), "left-0");
    assert_eq!(PrevNext::Next.position(), "right-0");
    assert_eq!(PrevNext::Prev.slide(), "prev");
    assert_eq!(PrevNext::Next.slide(), "next");
    assert_eq!(PrevNext::Prev.svg_path(), "M15.75 19.5L8.25 12l7.5-7.5");
    assert_eq!(PrevNext::Next.svg_path(), "M8.25 4.5l7.5 7.5-7.5 7.5");
    assert_eq!(PrevNext::Prev.alt(), "Previous");
    assert_eq!(PrevNext::Next.alt(), "Next");
    let class = PrevNext::Next.button_class();
    assert!(class.starts_with("absolute bottom-0 right-0 top-0 z-[1] flex w-[15%]"));
    assert!(class.ends_with("motion-reduce:transition-none"));
    assert!(PrevNext::Prev.button_class().starts_with("absolute bottom-0 left-0 top-0"));
}

#[test]
fn carousel_options_interval_bounds() {
    let o = carousel_options(5000).unwrap();
    assert_eq!(o.interval, 5000);
    assert_eq!(o.ride, "carousel");
    assert_eq!(o.pause, "hover");
    assert_eq!(carousel_options(0).unwrap().interval, 0);
    assert_eq!(carousel_options(i32::MAX as u128).unwrap().interval, i32::MAX);
    assert!(carousel_options(i32::MAX as u128 + 1).is_none());
    assert!(carousel_options(u128::MAX).is_none());
}

#[test]
fn slideshow_starts_paused_when_not_running() {
    assert_eq!(initial_slideshow_action(true), SlideshowAction::Keep);
    assert_eq!(initial_slideshow_action(false), SlideshowAction::Pause);
}

#[test]
fn slideshow_steps() {
    assert_eq!(slideshow_step(false, None, true), (SlideshowAction::Keep, false));
    assert_eq!(slideshow_step(false, Some(true), false), (SlideshowAction::Keep, false));
    assert_eq!(slideshow_step(true, None, true), (SlideshowAction::Cycle, true));
    assert_eq!(slideshow_step(true, Some(false), true), (SlideshowAction::Cycle, true));
    assert_eq!(slideshow_step(true, Some(true), true), (SlideshowAction::Keep, true));
    assert_eq!(slideshow_step(true, None, false), (SlideshowAction::Pause, false));
    assert_eq!(slideshow_step(true, Some(true), false), (SlideshowAction::Pause, false));
    assert_eq!(slideshow_step(true, Some(false), false), (SlideshowAction::Keep, false));
}

#[test]
fn slide_events_set_current_image() {
    assert_eq!(current_image_after(SlideEvent::Slide(2)), Ok(None));
    assert_eq!(current_image_after(SlideEvent::Slid(2)), Ok(Some(2)));
    assert_eq!(current_image_after(SlideEvent::Slid(0)), Ok(Some(0)));
    assert_eq!(
        current_image_after(SlideEvent::Slid(-1)),
        Err(CarouselError::NegativeSlideIndex)
    );
    assert_eq!(CarouselError::NegativeSlideIndex.message(), "negative slide index");
}

#[test]
fn select_finds_the_unique_option() {
    let values = vec!["red".to_string(), "green".to_string(), "blue".to_string()];
    assert_eq!(find_option(&values, &"red".to_string()), Ok(0));
    assert_eq!(find_option(&values, &"blue".to_string()), Ok(2));
}

#[test]
fn select_rejects_unknown_and_duplicate_values() {
    let values = vec!["a".to_string(), "b".to_string(), "a".to_string()];
    assert_eq!(find_option(&values, &"c".to_string()), Err(SelectError::InvalidValue));
    assert_eq!(find_option(&values, &"a".to_string()), Err(SelectError::DuplicateValue));
    assert_eq!(find_option(&values, &"b".to_string()), Ok(1));
    assert_eq!(find_option(&Vec::new(), &"".to_string()), Err(SelectError::InvalidValue));
    assert_eq!(
        SelectError::InvalidValue.message(),
        "Select value changed to an invalid value: "
    );
    assert_eq!(
        SelectError::DuplicateValue.message(),
        "Select value changed to a duplicate value: "
    );
}

#[test]
fn modal_commands_need_a_mounted_widget() {
    let mut m = ModalState::new();
    assert!(!m.showing());
    assert_eq!(
        m.command(ModalCommand::Show),
        Err(ModalError::NotMounted(ModalCommand::Show))
    );
    assert!(!m.handle(ModalEvent::Mounted));
    assert_eq!(m.command(ModalCommand::Show), Ok(ModalCommand::Show));
    assert_eq!(m.command(ModalCommand::Hide), Ok(ModalCommand::Hide));
    assert!(m.handle(ModalEvent::Unmounted));
    assert!(!m.handle(ModalEvent::Unmounted));
    assert_eq!(
        m.command(ModalCommand::Hide),
        Err(ModalError::NotMounted(ModalCommand::Hide))
    );
}

#[test]
fn modal_tracks_showing_from_widget_events() {
    let mut m = ModalState::new();
    m.handle(ModalEvent::Mounted);
    assert!(!m.handle(ModalEvent::ShowStarted));
    assert!(m.showing());
    assert!(!m.handle(ModalEvent::Hidden));
    assert!(!m.showing());
    assert_eq!(m, ModalState { mounted: true, showing: false });
}

#[test]
fn modal_error_messages() {
    assert_eq!(
        ModalError::NotMounted(ModalCommand::Show).message(),
        "Tried to show a modal but its view is not added to the page"
    );
    assert_eq!(
        ModalError::NotMounted(ModalCommand::Hide).message(),
        "Tried to hide a modal but its view is not added to the page"
    );
}
