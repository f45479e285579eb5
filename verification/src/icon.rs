//! The icon set: each icon has an SVG image, registered under its own URI,
//! and a glyph of the Material Symbols font.

use vstd::prelude::*;

verus! {

#[derive(Clone, Copy, Debug, PartialEq, Eq, Hash, Structural)]
pub enum Icon {
    ArrowLeft,
    ArrowRight,
    AudioLines,
    BadgeCheck,
    Bookmark,
    BookmarkFilled,
    Car,
    Cast,
    Check,
    ChevronDown,
    ChevronLeft,
    ChevronRight,
    ChevronUp,
    CircleAlert,
    CircleCheck,
    CirclePlay,
    CirclePlus,
    CircleX,
    Clock,
    Compass,
    Copy,
    Disc,
    Ellipsis,
    ExternalLink,
    Gamepad,
    Globe,
    GripVertical,
    Headphones,
    Heart,
    HeartFilled,
    House,
    Info,
    Laptop,
    Library,
    ListEnd,
    ListMusic,
    ListPlus,
    ListVideo,
    Loader,
    Lock,
    LogOut,
    Mic,
    Minus,
    Monitor,
    Moon,
    Music,
    Pause,
    PauseFilled,
    PanelLeft,
    Pin,
    PinOff,
    Pencil,
    Play,
    PlayFilled,
    Plus,
    Radio,
    Refresh,
    Repeat,
    Repeat1,
    Search,
    Settings,
    Shrink,
    Shuffle,
    SkipBack,
    SkipBackFilled,
    SkipForward,
    SkipForwardFilled,
    Smartphone,
    Sparkles,
    Speaker,
    Square,
    SquarePen,
    Sun,
    Tablet,
    Trash,
    TrendingUp,
    Tv,
    User,
    Users,
    Volume,
    Volume1,
    Volume2,
    VolumeX,
    Watch,
    X,
    Zap,
}

/// Where every icon's image is registered: `bytes://fastpotify-icon-`, the
/// icon's asset name, then `.svg`.
pub open spec fn uri_prefix() -> Seq<char> {
    "bytes://fastpotify-icon-"@
}

impl Icon {
    /// The file name, without `.svg`, of the icon's image.
    pub open spec fn asset_name(self) -> Seq<char> {
        match self {
            Icon::ArrowLeft => "arrow-left"@,
            Icon::ArrowRight => "arrow-right"@,
            Icon::AudioLines => "audio-lines"@,
            Icon::BadgeCheck => "badge-check"@,
            Icon::Bookmark => "bookmark"@,
            Icon::BookmarkFilled => "bookmark-filled"@,
            Icon::Car => "car"@,
            Icon::Cast => "cast"@,
            Icon::Check => "check"@,
            Icon::ChevronDown => "chevron-down"@,
            Icon::ChevronLeft => "chevron-left"@,
            Icon::ChevronRight => "chevron-right"@,
            Icon::ChevronUp => "chevron-up"@,
            Icon::CircleAlert => "circle-alert"@,
            Icon::CircleCheck => "circle-check"@,
            Icon::CirclePlay => "circle-play"@,
            Icon::CirclePlus => "circle-plus"@,
            Icon::CircleX => "circle-x"@,
            Icon::Clock => "clock"@,
            Icon::Compass => "compass"@,
            Icon::Copy => "copy"@,
            Icon::Disc => "disc-3"@,
            Icon::Ellipsis => "ellipsis"@,
            Icon::ExternalLink => "external-link"@,
            Icon::Gamepad => "gamepad-2"@,
            Icon::Globe => "globe"@,
            Icon::GripVertical => "grip-vertical"@,
            Icon::Headphones => "headphones"@,
            Icon::Heart => "heart"@,
            Icon::HeartFilled => "heart-filled"@,
            Icon::House => "house"@,
            Icon::Info => "info"@,
            Icon::Laptop => "laptop"@,
            Icon::Library => "library"@,
            Icon::ListEnd => "list-end"@,
            Icon::ListMusic => "list-music"@,
            Icon::ListPlus => "list-plus"@,
            Icon::ListVideo => "list-video"@,
            Icon::Loader => "loader-circle"@,
            Icon::Lock => "lock"@,
            Icon::LogOut => "log-out"@,
            Icon::Mic => "mic"@,
            Icon::Minus => "minus"@,
            Icon::Monitor => "monitor"@,
            Icon::Moon => "moon"@,
            Icon::Music => "music"@,
            Icon::Pause => "pause"@,
            Icon::PauseFilled => "pause-filled"@,
            Icon::PanelLeft => "panel-left"@,
            Icon::Pin => "pin"@,
            Icon::PinOff => "pin-off"@,
            Icon::Pencil => "pencil"@,
            Icon::Play => "play"@,
            Icon::PlayFilled => "play-filled"@,
            Icon::Plus => "plus"@,
            Icon::Radio => "radio"@,
            Icon::Refresh => "refresh-cw"@,
            Icon::Repeat => "repeat"@,
            Icon::Repeat1 => "repeat-1"@,
            Icon::Search => "search"@,
            Icon::Settings => "settings"@,
            Icon::Shrink => "shrink"@,
            Icon::Shuffle => "shuffle"@,
            Icon::SkipBack => "skip-back"@,
            Icon::SkipBackFilled => "skip-back-filled"@,
            Icon::SkipForward => "skip-forward"@,
            Icon::SkipForwardFilled => "skip-forward-filled"@,
            Icon::Smartphone => "smartphone"@,
            Icon::Sparkles => "sparkles"@,
            Icon::Speaker => "speaker"@,
            Icon::Square => "square"@,
            Icon::SquarePen => "square-pen"@,
            Icon::Sun => "sun"@,
            Icon::Tablet => "tablet"@,
            Icon::Trash => "trash-2"@,
            Icon::TrendingUp => "trending-up"@,
            Icon::Tv => "tv"@,
            Icon::User => "user"@,
            Icon::Users => "users"@,
            Icon::Volume => "volume"@,
            Icon::Volume1 => "volume-1"@,
            Icon::Volume2 => "volume-2"@,
            Icon::VolumeX => "volume-x"@,
            Icon::Watch => "watch"@,
            Icon::X => "x"@,
            Icon::Zap => "zap"@,
        }
    }

    pub open spec fn image_uri(self) -> Seq<char> {
        uri_prefix() + self.asset_name() + ".svg"@
    }

    /// The Material Symbols code point drawn for the icon.
    pub open spec fn glyph(self) -> char {
        match self {
            Icon::ArrowLeft => '\u{e5c4}',
            Icon::ArrowRight => '\u{e5c8}',
            Icon::AudioLines => '\u{e01d}',
            Icon::BadgeCheck => '\u{e86c}',
            Icon::Bookmark => '\u{e866}',
            Icon::BookmarkFilled => '\u{e866}',
            Icon::Car => '\u{e531}',
            Icon::Cast => '\u{e307}',
            Icon::Check => '\u{e5ca}',
            Icon::ChevronDown => '\u{e5cf}',
            Icon::ChevronLeft => '\u{e5cb}',
            Icon::ChevronRight => '\u{e5cc}',
            Icon::ChevronUp => '\u{e5ce}',
            Icon::CircleAlert => '\u{e000}',
            Icon::CircleCheck => '\u{e86c}',
            Icon::CirclePlay => '\u{e038}',
            Icon::CirclePlus => '\u{e147}',
            Icon::CircleX => '\u{e5c9}',
            Icon::Clock => '\u{e8b5}',
            Icon::Compass => '\u{e87a}',
            Icon::Copy => '\u{e14d}',
            Icon::Disc => '\u{e019}',
            Icon::Ellipsis => '\u{e5d4}',
            Icon::ExternalLink => '\u{e895}',
            Icon::Gamepad => '\u{e30f}',
            Icon::Globe => '\u{e80b}',
            Icon::GripVertical => '\u{e5d4}',
            Icon::Headphones => '\u{e310}',
            Icon::Heart => '\u{e87e}',
            Icon::HeartFilled => '\u{e87d}',
            Icon::House => '\u{e88a}',
            Icon::Info => '\u{e88e}',
            Icon::Laptop => '\u{e30c}',
            Icon::Library => '\u{e021}',
            Icon::ListEnd => '\u{e896}',
            Icon::ListMusic => '\u{e896}',
            Icon::ListPlus => '\u{e03b}',
            Icon::ListVideo => '\u{e059}',
            Icon::Loader => '\u{e5d5}',
            Icon::Lock => '\u{e897}',
            Icon::LogOut => '\u{e9ba}',
            Icon::Mic => '\u{e029}',
            Icon::Minus => '\u{e15b}',
            Icon::Monitor => '\u{e30b}',
            Icon::Moon => '\u{e51c}',
            Icon::Music => '\u{e405}',
            Icon::Pause => '\u{e034}',
            Icon::PauseFilled => '\u{e034}',
            Icon::PanelLeft => '\u{e5d2}',
            Icon::Pin => '\u{e566}',
            Icon::PinOff => '\u{e566}',
            Icon::Pencil => '\u{e3c9}',
            Icon::Play => '\u{e037}',
            Icon::PlayFilled => '\u{e037}',
            Icon::Plus => '\u{e145}',
            Icon::Radio => '\u{e51e}',
            Icon::Refresh => '\u{e5d5}',
            Icon::Repeat => '\u{e040}',
            Icon::Repeat1 => '\u{e041}',
            Icon::Search => '\u{e8b6}',
            Icon::Settings => '\u{e8b8}',
            Icon::Shrink => '\u{e5d0}',
            Icon::Shuffle => '\u{e043}',
            Icon::SkipBack => '\u{e045}',
            Icon::SkipBackFilled => '\u{e045}',
            Icon::SkipForward => '\u{e044}',
            Icon::SkipForwardFilled => '\u{e044}',
            Icon::Smartphone => '\u{e32c}',
            Icon::Sparkles => '\u{e65f}',
            Icon::Speaker => '\u{e32d}',
            Icon::Square => '\u{e036}',
            Icon::SquarePen => '\u{e3c9}',
            Icon::Sun => '\u{e518}',
            Icon::Tablet => '\u{e330}',
            Icon::Trash => '\u{e872}',
            Icon::TrendingUp => '\u{e8e5}',
            Icon::Tv => '\u{e333}',
            Icon::User => '\u{e7fd}',
            Icon::Users => '\u{e7fb}',
            Icon::Volume => '\u{e050}',
            Icon::Volume1 => '\u{e04d}',
            Icon::Volume2 => '\u{e050}',
            Icon::VolumeX => '\u{e04f}',
            Icon::Watch => '\u{e334}',
            Icon::X => '\u{e5cd}',
            Icon::Zap => '\u{e8e8}',
        }
    }

    /// The URI under which the icon's image is registered.
    pub fn uri(self) -> (u: &'static str)
        ensures
            u@ == self.image_uri(),
    {
        let u = match self {
            Icon::ArrowLeft => "bytes://fastpotify-icon-arrow-left.svg",
            Icon::ArrowRight => "bytes://fastpotify-icon-arrow-right.svg",
            Icon::AudioLines => "bytes://fastpotify-icon-audio-lines.svg",
            Icon::BadgeCheck => "bytes://fastpotify-icon-badge-check.svg",
            Icon::Bookmark => "bytes://fastpotify-icon-bookmark.svg",
            Icon::BookmarkFilled => "bytes://fastpotify-icon-bookmark-filled.svg",
            Icon::Car => "bytes://fastpotify-icon-car.svg",
            Icon::Cast => "bytes://fastpotify-icon-cast.svg",
            Icon::Check => "bytes://fastpotify-icon-check.svg",
            Icon::ChevronDown => "bytes://fastpotify-icon-chevron-down.svg",
            Icon::ChevronLeft => "bytes://fastpotify-icon-chevron-left.svg",
            Icon::ChevronRight => "bytes://fastpotify-icon-chevron-right.svg",
            Icon::ChevronUp => "bytes://fastpotify-icon-chevron-up.svg",
            Icon::CircleAlert => "bytes://fastpotify-icon-circle-alert.svg",
            Icon::CircleCheck => "bytes://fastpotify-icon-circle-check.svg",
            Icon::CirclePlay => "bytes://fastpotify-icon-circle-play.svg",
            Icon::CirclePlus => "bytes://fastpotify-icon-circle-plus.svg",
            Icon::CircleX => "bytes://fastpotify-icon-circle-x.svg",
            Icon::Clock => "bytes://fastpotify-icon-clock.svg",
            Icon::Compass => "bytes://fastpotify-icon-compass.svg",
            Icon::Copy => "bytes://fastpotify-icon-copy.svg",
            Icon::Disc => "bytes://fastpotify-icon-disc-3.svg",
            Icon::Ellipsis => "bytes://fastpotify-icon-ellipsis.svg",
            Icon::ExternalLink => "bytes://fastpotify-icon-external-link.svg",
            Icon::Gamepad => "bytes://fastpotify-icon-gamepad-2.svg",
            Icon::Globe => "bytes://fastpotify-icon-globe.svg",
            Icon::GripVertical => "bytes://fastpotify-icon-grip-vertical.svg",
            Icon::Headphones => "bytes://fastpotify-icon-headphones.svg",
            Icon::Heart => "bytes://fastpotify-icon-heart.svg",
            Icon::HeartFilled => "bytes://fastpotify-icon-heart-filled.svg",
            Icon::House => "bytes://fastpotify-icon-house.svg",
            Icon::Info => "bytes://fastpotify-icon-info.svg",
            Icon::Laptop => "bytes://fastpotify-icon-laptop.svg",
            Icon::Library => "bytes://fastpotify-icon-library.svg",
            Icon::ListEnd => "bytes://fastpotify-icon-list-end.svg",
            Icon::ListMusic => "bytes://fastpotify-icon-list-music.svg",
            Icon::ListPlus => "bytes://fastpotify-icon-list-plus.svg",
            Icon::ListVideo => "bytes://fastpotify-icon-list-video.svg",
            Icon::Loader => "bytes://fastpotify-icon-loader-circle.svg",
            Icon::Lock => "bytes://fastpotify-icon-lock.svg",
            Icon::LogOut => "bytes://fastpotify-icon-log-out.svg",
            Icon::Mic => "bytes://fastpotify-icon-mic.svg",
            Icon::Minus => "bytes://fastpotify-icon-minus.svg",
            Icon::Monitor => "bytes://fastpotify-icon-monitor.svg",
            Icon::Moon => "bytes://fastpotify-icon-moon.svg",
            Icon::Music => "bytes://fastpotify-icon-music.svg",
            Icon::Pause => "bytes://fastpotify-icon-pause.svg",
            Icon::PauseFilled => "bytes://fastpotify-icon-pause-filled.svg",
            Icon::PanelLeft => "bytes://fastpotify-icon-panel-left.svg",
            Icon::Pin => "bytes://fastpotify-icon-pin.svg",
            Icon::PinOff => "bytes://fastpotify-icon-pin-off.svg",
            Icon::Pencil => "bytes://fastpotify-icon-pencil.svg",
            Icon::Play => "bytes://fastpotify-icon-play.svg",
            Icon::PlayFilled => "bytes://fastpotify-icon-play-filled.svg",
            Icon::Plus => "bytes://fastpotify-icon-plus.svg",
            Icon::Radio => "bytes://fastpotify-icon-radio.svg",
            Icon::Refresh => "bytes://fastpotify-icon-refresh-cw.svg",
            Icon::Repeat => "bytes://fastpotify-icon-repeat.svg",
            Icon::Repeat1 => "bytes://fastpotify-icon-repeat-1.svg",
            Icon::Search => "bytes://fastpotify-icon-search.svg",
            Icon::Settings => "bytes://fastpotify-icon-settings.svg",
            Icon::Shrink => "bytes://fastpotify-icon-shrink.svg",
            Icon::Shuffle => "bytes://fastpotify-icon-shuffle.svg",
            Icon::SkipBack => "bytes://fastpotify-icon-skip-back.svg",
            Icon::SkipBackFilled => "bytes://fastpotify-icon-skip-back-filled.svg",
            Icon::SkipForward => "bytes://fastpotify-icon-skip-forward.svg",
            Icon::SkipForwardFilled => "bytes://fastpotify-icon-skip-forward-filled.svg",
            Icon::Smartphone => "bytes://fastpotify-icon-smartphone.svg",
            Icon::Sparkles => "bytes://fastpotify-icon-sparkles.svg",
            Icon::Speaker => "bytes://fastpotify-icon-speaker.svg",
            Icon::Square => "bytes://fastpotify-icon-square.svg",
            Icon::SquarePen => "bytes://fastpotify-icon-square-pen.svg",
            Icon::Sun => "bytes://fastpotify-icon-sun.svg",
            Icon::Tablet => "bytes://fastpotify-icon-tablet.svg",
            Icon::Trash => "bytes://fastpotify-icon-trash-2.svg",
            Icon::TrendingUp => "bytes://fastpotify-icon-trending-up.svg",
            Icon::Tv => "bytes://fastpotify-icon-tv.svg",
            Icon::User => "bytes://fastpotify-icon-user.svg",
            Icon::Users => "bytes://fastpotify-icon-users.svg",
            Icon::Volume => "bytes://fastpotify-icon-volume.svg",
            Icon::Volume1 => "bytes://fastpotify-icon-volume-1.svg",
            Icon::Volume2 => "bytes://fastpotify-icon-volume-2.svg",
            Icon::VolumeX => "bytes://fastpotify-icon-volume-x.svg",
            Icon::Watch => "bytes://fastpotify-icon-watch.svg",
            Icon::X => "bytes://fastpotify-icon-x.svg",
            Icon::Zap => "bytes://fastpotify-icon-zap.svg",
        };
        proof {
            reveal_strlit("bytes://fastpotify-icon-");
            reveal_strlit(".svg");
            match self {
                Icon::ArrowLeft => {
                    reveal_strlit("bytes://fastpotify-icon-arrow-left.svg");
                    reveal_strlit("arrow-left");
                },
                Icon::ArrowRight => {
                    reveal_strlit("bytes://fastpotify-icon-arrow-right.svg");
                    reveal_strlit("arrow-right");
                },
                Icon::AudioLines => {
                    reveal_strlit("bytes://fastpotify-icon-audio-lines.svg");
                    reveal_strlit("audio-lines");
                },
                Icon::BadgeCheck => {
                    reveal_strlit("bytes://fastpotify-icon-badge-check.svg");
                    reveal_strlit("badge-check");
                },
                Icon::Bookmark => {
                    reveal_strlit("bytes://fastpotify-icon-bookmark.svg");
                    reveal_strlit("bookmark");
                },
                Icon::BookmarkFilled => {
                    reveal_strlit("bytes://fastpotify-icon-bookmark-filled.svg");
                    reveal_strlit("bookmark-filled");
                },
                Icon::Car => {
                    reveal_strlit("bytes://fastpotify-icon-car.svg");
                    reveal_strlit("car");
                },
                Icon::Cast => {
                    reveal_strlit("bytes://fastpotify-icon-cast.svg");
                    reveal_strlit("cast");
                },
                Icon::Check => {
                    reveal_strlit("bytes://fastpotify-icon-check.svg");
                    reveal_strlit("check");
                },
                Icon::ChevronDown => {
                    reveal_strlit("bytes://fastpotify-icon-chevron-down.svg");
                    reveal_strlit("chevron-down");
                },
                Icon::ChevronLeft => {
                    reveal_strlit("bytes://fastpotify-icon-chevron-left.svg");
                    reveal_strlit("chevron-left");
                },
                Icon::ChevronRight => {
                    reveal_strlit("bytes://fastpotify-icon-chevron-right.svg");
                    reveal_strlit("chevron-right");
                },
                Icon::ChevronUp => {
                    reveal_strlit("bytes://fastpotify-icon-chevron-up.svg");
                    reveal_strlit("chevron-up");
                },
                Icon::CircleAlert => {
                    reveal_strlit("bytes://fastpotify-icon-circle-alert.svg");
                    reveal_strlit("circle-alert");
                },
                Icon::CircleCheck => {
                    reveal_strlit("bytes://fastpotify-icon-circle-check.svg");
                    reveal_strlit("circle-check");
                },
                Icon::CirclePlay => {
                    reveal_strlit("bytes://fastpotify-icon-circle-play.svg");
                    reveal_strlit("circle-play");
                },
                Icon::CirclePlus => {
                    reveal_strlit("bytes://fastpotify-icon-circle-plus.svg");
                    reveal_strlit("circle-plus");
                },
                Icon::CircleX => {
                    reveal_strlit("bytes://fastpotify-icon-circle-x.svg");
                    reveal_strlit("circle-x");
                },
                Icon::Clock => {
                    reveal_strlit("bytes://fastpotify-icon-clock.svg");
                    reveal_strlit("clock");
                },
                Icon::Compass => {
                    reveal_strlit("bytes://fastpotify-icon-compass.svg");
                    reveal_strlit("compass");
                },
                Icon::Copy => {
                    reveal_strlit("bytes://fastpotify-icon-copy.svg");
                    reveal_strlit("copy");
                },
                Icon::Disc => {
                    reveal_strlit("bytes://fastpotify-icon-disc-3.svg");
                    reveal_strlit("disc-3");
                },
                Icon::Ellipsis => {
                    reveal_strlit("bytes://fastpotify-icon-ellipsis.svg");
                    reveal_strlit("ellipsis");
                },
                Icon::ExternalLink => {
                    reveal_strlit("bytes://fastpotify-icon-external-link.svg");
                    reveal_strlit("external-link");
                },
                Icon::Gamepad => {
                    reveal_strlit("bytes://fastpotify-icon-gamepad-2.svg");
                    reveal_strlit("gamepad-2");
                },
                Icon::Globe => {
                    reveal_strlit("bytes://fastpotify-icon-globe.svg");
                    reveal_strlit("globe");
                },
                Icon::GripVertical => {
                    reveal_strlit("bytes://fastpotify-icon-grip-vertical.svg");
                    reveal_strlit("grip-vertical");
                },
                Icon::Headphones => {
                    reveal_strlit("bytes://fastpotify-icon-headphones.svg");
                    reveal_strlit("headphones");
                },
                Icon::Heart => {
                    reveal_strlit("bytes://fastpotify-icon-heart.svg");
                    reveal_strlit("heart");
                },
                Icon::HeartFilled => {
                    reveal_strlit("bytes://fastpotify-icon-heart-filled.svg");
                    reveal_strlit("heart-filled");
                },
                Icon::House => {
                    reveal_strlit("bytes://fastpotify-icon-house.svg");
                    reveal_strlit("house");
                },
                Icon::Info => {
                    reveal_strlit("bytes://fastpotify-icon-info.svg");
                    reveal_strlit("info");
                },
                Icon::Laptop => {
                    reveal_strlit("bytes://fastpotify-icon-laptop.svg");
                    reveal_strlit("laptop");
                },
                Icon::Library => {
                    reveal_strlit("bytes://fastpotify-icon-library.svg");
                    reveal_strlit("library");
                },
                Icon::ListEnd => {
                    reveal_strlit("bytes://fastpotify-icon-list-end.svg");
                    reveal_strlit("list-end");
                },
                Icon::ListMusic => {
                    reveal_strlit("bytes://fastpotify-icon-list-music.svg");
                    reveal_strlit("list-music");
                },
                Icon::ListPlus => {
                    reveal_strlit("bytes://fastpotify-icon-list-plus.svg");
                    reveal_strlit("list-plus");
                },
                Icon::ListVideo => {
                    reveal_strlit("bytes://fastpotify-icon-list-video.svg");
                    reveal_strlit("list-video");
                },
                Icon::Loader => {
                    reveal_strlit("bytes://fastpotify-icon-loader-circle.svg");
                    reveal_strlit("loader-circle");
                },
                Icon::Lock => {
                    reveal_strlit("bytes://fastpotify-icon-lock.svg");
                    reveal_strlit("lock");
                },
                Icon::LogOut => {
                    reveal_strlit("bytes://fastpotify-icon-log-out.svg");
                    reveal_strlit("log-out");
                },
                Icon::Mic => {
                    reveal_strlit("bytes://fastpotify-icon-mic.svg");
                    reveal_strlit("mic");
                },
                Icon::Minus => {
                    reveal_strlit("bytes://fastpotify-icon-minus.svg");
                    reveal_strlit("minus");
                },
                Icon::Monitor => {
                    reveal_strlit("bytes://fastpotify-icon-monitor.svg");
                    reveal_strlit("monitor");
                },
                Icon::Moon => {
                    reveal_strlit("bytes://fastpotify-icon-moon.svg");
                    reveal_strlit("moon");
                },
                Icon::Music => {
                    reveal_strlit("bytes://fastpotify-icon-music.svg");
                    reveal_strlit("music");
                },
                Icon::Pause => {
                    reveal_strlit("bytes://fastpotify-icon-pause.svg");
                    reveal_strlit("pause");
                },
                Icon::PauseFilled => {
                    reveal_strlit("bytes://fastpotify-icon-pause-filled.svg");
                    reveal_strlit("pause-filled");
                },
                Icon::PanelLeft => {
                    reveal_strlit("bytes://fastpotify-icon-panel-left.svg");
                    reveal_strlit("panel-left");
                },
                Icon::Pin => {
                    reveal_strlit("bytes://fastpotify-icon-pin.svg");
                    reveal_strlit("pin");
                },
                Icon::PinOff => {
                    reveal_strlit("bytes://fastpotify-icon-pin-off.svg");
                    reveal_strlit("pin-off");
                },
                Icon::Pencil => {
                    reveal_strlit("bytes://fastpotify-icon-pencil.svg");
                    reveal_strlit("pencil");
                },
                Icon::Play => {
                    reveal_strlit("bytes://fastpotify-icon-play.svg");
                    reveal_strlit("play");
                },
                Icon::PlayFilled => {
                    reveal_strlit("bytes://fastpotify-icon-play-filled.svg");
                    reveal_strlit("play-filled");
                },
                Icon::Plus => {
                    reveal_strlit("bytes://fastpotify-icon-plus.svg");
                    reveal_strlit("plus");
                },
                Icon::Radio => {
                    reveal_strlit("bytes://fastpotify-icon-radio.svg");
                    reveal_strlit("radio");
                },
                Icon::Refresh => {
                    reveal_strlit("bytes://fastpotify-icon-refresh-cw.svg");
                    reveal_strlit("refresh-cw");
                },
                Icon::Repeat => {
                    reveal_strlit("bytes://fastpotify-icon-repeat.svg");
                    reveal_strlit("repeat");
                },
                Icon::Repeat1 => {
                    reveal_strlit("bytes://fastpotify-icon-repeat-1.svg");
                    reveal_strlit("repeat-1");
                },
                Icon::Search => {
                    reveal_strlit("bytes://fastpotify-icon-search.svg");
                    reveal_strlit("search");
                },
                Icon::Settings => {
                    reveal_strlit("bytes://fastpotify-icon-settings.svg");
                    reveal_strlit("settings");
                },
                Icon::Shrink => {
                    reveal_strlit("bytes://fastpotify-icon-shrink.svg");
                    reveal_strlit("shrink");
                },
                Icon::Shuffle => {
                    reveal_strlit("bytes://fastpotify-icon-shuffle.svg");
                    reveal_strlit("shuffle");
                },
                Icon::SkipBack => {
                    reveal_strlit("bytes://fastpotify-icon-skip-back.svg");
                    reveal_strlit("skip-back");
                },
                Icon::SkipBackFilled => {
                    reveal_strlit("bytes://fastpotify-icon-skip-back-filled.svg");
                    reveal_strlit("skip-back-filled");
                },
                Icon::SkipForward => {
                    reveal_strlit("bytes://fastpotify-icon-skip-forward.svg");
                    reveal_strlit("skip-forward");
                },
                Icon::SkipForwardFilled => {
                    reveal_strlit("bytes://fastpotify-icon-skip-forward-filled.svg");
                    reveal_strlit("skip-forward-filled");
                },
                Icon::Smartphone => {
                    reveal_strlit("bytes://fastpotify-icon-smartphone.svg");
                    reveal_strlit("smartphone");
                },
                Icon::Sparkles => {
                    reveal_strlit("bytes://fastpotify-icon-sparkles.svg");
                    reveal_strlit("sparkles");
                },
                Icon::Speaker => {
                    reveal_strlit("bytes://fastpotify-icon-speaker.svg");
                    reveal_strlit("speaker");
                },
                Icon::Square => {
                    reveal_strlit("bytes://fastpotify-icon-square.svg");
                    reveal_strlit("square");
                },
                Icon::SquarePen => {
                    reveal_strlit("bytes://fastpotify-icon-square-pen.svg");
                    reveal_strlit("square-pen");
                },
                Icon::Sun => {
                    reveal_strlit("bytes://fastpotify-icon-sun.svg");
                    reveal_strlit("sun");
                },
                Icon::Tablet => {
                    reveal_strlit("bytes://fastpotify-icon-tablet.svg");
                    reveal_strlit("tablet");
                },
                Icon::Trash => {
                    reveal_strlit("bytes://fastpotify-icon-trash-2.svg");
                    reveal_strlit("trash-2");
                },
                Icon::TrendingUp => {
                    reveal_strlit("bytes://fastpotify-icon-trending-up.svg");
                    reveal_strlit("trending-up");
                },
                Icon::Tv => {
                    reveal_strlit("bytes://fastpotify-icon-tv.svg");
                    reveal_strlit("tv");
                },
                Icon::User => {
                    reveal_strlit("bytes://fastpotify-icon-user.svg");
                    reveal_strlit("user");
                },
                Icon::Users => {
                    reveal_strlit("bytes://fastpotify-icon-users.svg");
                    reveal_strlit("users");
                },
                Icon::Volume => {
                    reveal_strlit("bytes://fastpotify-icon-volume.svg");
                    reveal_strlit("volume");
                },
                Icon::Volume1 => {
                    reveal_strlit("bytes://fastpotify-icon-volume-1.svg");
                    reveal_strlit("volume-1");
                },
                Icon::Volume2 => {
                    reveal_strlit("bytes://fastpotify-icon-volume-2.svg");
                    reveal_strlit("volume-2");
                },
                Icon::VolumeX => {
                    reveal_strlit("bytes://fastpotify-icon-volume-x.svg");
                    reveal_strlit("volume-x");
                },
                Icon::Watch => {
                    reveal_strlit("bytes://fastpotify-icon-watch.svg");
                    reveal_strlit("watch");
                },
                Icon::X => {
                    reveal_strlit("bytes://fastpotify-icon-x.svg");
                    reveal_strlit("x");
                },
                Icon::Zap => {
                    reveal_strlit("bytes://fastpotify-icon-zap.svg");
                    reveal_strlit("zap");
                },
            }
            assert(u@ =~= self.image_uri());
        }
        u
    }

    /// The icon's glyph in the Material Symbols font, as a one-character text.
    pub fn symbol_glyph(self) -> (g: &'static str)
        ensures
            g@ == seq![self.glyph()],
    {
        let g = match self {
            Icon::ArrowLeft => "\u{e5c4}",
            Icon::ArrowRight => "\u{e5c8}",
            Icon::AudioLines => "\u{e01d}",
            Icon::BadgeCheck => "\u{e86c}",
            Icon::Bookmark => "\u{e866}",
            Icon::BookmarkFilled => "\u{e866}",
            Icon::Car => "\u{e531}",
            Icon::Cast => "\u{e307}",
            Icon::Check => "\u{e5ca}",
            Icon::ChevronDown => "\u{e5cf}",
            Icon::ChevronLeft => "\u{e5cb}",
            Icon::ChevronRight => "\u{e5cc}",
            Icon::ChevronUp => "\u{e5ce}",
            Icon::CircleAlert => "\u{e000}",
            Icon::CircleCheck => "\u{e86c}",
            Icon::CirclePlay => "\u{e038}",
            Icon::CirclePlus => "\u{e147}",
            Icon::CircleX => "\u{e5c9}",
            Icon::Clock => "\u{e8b5}",
            Icon::Compass => "\u{e87a}",
            Icon::Copy => "\u{e14d}",
            Icon::Disc => "\u{e019}",
            Icon::Ellipsis => "\u{e5d4}",
            Icon::ExternalLink => "\u{e895}",
            Icon::Gamepad => "\u{e30f}",
            Icon::Globe => "\u{e80b}",
            Icon::GripVertical => "\u{e5d4}",
            Icon::Headphones => "\u{e310}",
            Icon::Heart => "\u{e87e}",
            Icon::HeartFilled => "\u{e87d}",
            Icon::House => "\u{e88a}",
            Icon::Info => "\u{e88e}",
            Icon::Laptop => "\u{e30c}",
            Icon::Library => "\u{e021}",
            Icon::ListEnd => "\u{e896}",
            Icon::ListMusic => "\u{e896}",
            Icon::ListPlus => "\u{e03b}",
            Icon::ListVideo => "\u{e059}",
            Icon::Loader => "\u{e5d5}",
            Icon::Lock => "\u{e897}",
            Icon::LogOut => "\u{e9ba}",
            Icon::Mic => "\u{e029}",
            Icon::Minus => "\u{e15b}",
            Icon::Monitor => "\u{e30b}",
            Icon::Moon => "\u{e51c}",
            Icon::Music => "\u{e405}",
            Icon::Pause => "\u{e034}",
            Icon::PauseFilled => "\u{e034}",
            Icon::PanelLeft => "\u{e5d2}",
            Icon::Pin => "\u{e566}",
            Icon::PinOff => "\u{e566}",
            Icon::Pencil => "\u{e3c9}",
            Icon::Play => "\u{e037}",
            Icon::PlayFilled => "\u{e037}",
            Icon::Plus => "\u{e145}",
            Icon::Radio => "\u{e51e}",
            Icon::Refresh => "\u{e5d5}",
            Icon::Repeat => "\u{e040}",
            Icon::Repeat1 => "\u{e041}",
            Icon::Search => "\u{e8b6}",
            Icon::Settings => "\u{e8b8}",
            Icon::Shrink => "\u{e5d0}",
            Icon::Shuffle => "\u{e043}",
            Icon::SkipBack => "\u{e045}",
            Icon::SkipBackFilled => "\u{e045}",
            Icon::SkipForward => "\u{e044}",
            Icon::SkipForwardFilled => "\u{e044}",
            Icon::Smartphone => "\u{e32c}",
            Icon::Sparkles => "\u{e65f}",
            Icon::Speaker => "\u{e32d}",
            Icon::Square => "\u{e036}",
            Icon::SquarePen => "\u{e3c9}",
            Icon::Sun => "\u{e518}",
            Icon::Tablet => "\u{e330}",
            Icon::Trash => "\u{e872}",
            Icon::TrendingUp => "\u{e8e5}",
            Icon::Tv => "\u{e333}",
            Icon::User => "\u{e7fd}",
            Icon::Users => "\u{e7fb}",
            Icon::Volume => "\u{e050}",
            Icon::Volume1 => "\u{e04d}",
            Icon::Volume2 => "\u{e050}",
            Icon::VolumeX => "\u{e04f}",
            Icon::Watch => "\u{e334}",
            Icon::X => "\u{e5cd}",
            Icon::Zap => "\u{e8e8}",
        };
        proof {
            match self {
                Icon::ArrowLeft => reveal_strlit("\u{e5c4}"),
                Icon::ArrowRight => reveal_strlit("\u{e5c8}"),
                Icon::AudioLines => reveal_strlit("\u{e01d}"),
                Icon::BadgeCheck => reveal_strlit("\u{e86c}"),
                Icon::Bookmark => reveal_strlit("\u{e866}"),
                Icon::BookmarkFilled => reveal_strlit("\u{e866}"),
                Icon::Car => reveal_strlit("\u{e531}"),
                Icon::Cast => reveal_strlit("\u{e307}"),
                Icon::Check => reveal_strlit("\u{e5ca}"),
                Icon::ChevronDown => reveal_strlit("\u{e5cf}"),
                Icon::ChevronLeft => reveal_strlit("\u{e5cb}"),
                Icon::ChevronRight => reveal_strlit("\u{e5cc}"),
                Icon::ChevronUp => reveal_strlit("\u{e5ce}"),
                Icon::CircleAlert => reveal_strlit("\u{e000}"),
                Icon::CircleCheck => reveal_strlit("\u{e86c}"),
                Icon::CirclePlay => reveal_strlit("\u{e038}"),
                Icon::CirclePlus => reveal_strlit("\u{e147}"),
                Icon::CircleX => reveal_strlit("\u{e5c9}"),
                Icon::Clock => reveal_strlit("\u{e8b5}"),
                Icon::Compass => reveal_strlit("\u{e87a}"),
                Icon::Copy => reveal_strlit("\u{e14d}"),
                Icon::Disc => reveal_strlit("\u{e019}"),
                Icon::Ellipsis => reveal_strlit("\u{e5d4}"),
                Icon::ExternalLink => reveal_strlit("\u{e895}"),
                Icon::Gamepad => reveal_strlit("\u{e30f}"),
                Icon::Globe => reveal_strlit("\u{e80b}"),
                Icon::GripVertical => reveal_strlit("\u{e5d4}"),
                Icon::Headphones => reveal_strlit("\u{e310}"),
                Icon::Heart => reveal_strlit("\u{e87e}"),
                Icon::HeartFilled => reveal_strlit("\u{e87d}"),
                Icon::House => reveal_strlit("\u{e88a}"),
                Icon::Info => reveal_strlit("\u{e88e}"),
                Icon::Laptop => reveal_strlit("\u{e30c}"),
                Icon::Library => reveal_strlit("\u{e021}"),
                Icon::ListEnd => reveal_strlit("\u{e896}"),
                Icon::ListMusic => reveal_strlit("\u{e896}"),
                Icon::ListPlus => reveal_strlit("\u{e03b}"),
                Icon::ListVideo => reveal_strlit("\u{e059}"),
                Icon::Loader => reveal_strlit("\u{e5d5}"),
                Icon::Lock => reveal_strlit("\u{e897}"),
                Icon::LogOut => reveal_strlit("\u{e9ba}"),
                Icon::Mic => reveal_strlit("\u{e029}"),
                Icon::Minus => reveal_strlit("\u{e15b}"),
                Icon::Monitor => reveal_strlit("\u{e30b}"),
                Icon::Moon => reveal_strlit("\u{e51c}"),
                Icon::Music => reveal_strlit("\u{e405}"),
                Icon::Pause => reveal_strlit("\u{e034}"),
                Icon::PauseFilled => reveal_strlit("\u{e034}"),
                Icon::PanelLeft => reveal_strlit("\u{e5d2}"),
                Icon::Pin => reveal_strlit("\u{e566}"),
                Icon::PinOff => reveal_strlit("\u{e566}"),
                Icon::Pencil => reveal_strlit("\u{e3c9}"),
                Icon::Play => reveal_strlit("\u{e037}"),
                Icon::PlayFilled => reveal_strlit("\u{e037}"),
                Icon::Plus => reveal_strlit("\u{e145}"),
                Icon::Radio => reveal_strlit("\u{e51e}"),
                Icon::Refresh => reveal_strlit("\u{e5d5}"),
                Icon::Repeat => reveal_strlit("\u{e040}"),
                Icon::Repeat1 => reveal_strlit("\u{e041}"),
                Icon::Search => reveal_strlit("\u{e8b6}"),
                Icon::Settings => reveal_strlit("\u{e8b8}"),
                Icon::Shrink => reveal_strlit("\u{e5d0}"),
                Icon::Shuffle => reveal_strlit("\u{e043}"),
                Icon::SkipBack => reveal_strlit("\u{e045}"),
                Icon::SkipBackFilled => reveal_strlit("\u{e045}"),
                Icon::SkipForward => reveal_strlit("\u{e044}"),
                Icon::SkipForwardFilled => reveal_strlit("\u{e044}"),
                Icon::Smartphone => reveal_strlit("\u{e32c}"),
                Icon::Sparkles => reveal_strlit("\u{e65f}"),
                Icon::Speaker => reveal_strlit("\u{e32d}"),
                Icon::Square => reveal_strlit("\u{e036}"),
                Icon::SquarePen => reveal_strlit("\u{e3c9}"),
                Icon::Sun => reveal_strlit("\u{e518}"),
                Icon::Tablet => reveal_strlit("\u{e330}"),
                Icon::Trash => reveal_strlit("\u{e872}"),
                Icon::TrendingUp => reveal_strlit("\u{e8e5}"),
                Icon::Tv => reveal_strlit("\u{e333}"),
                Icon::User => reveal_strlit("\u{e7fd}"),
                Icon::Users => reveal_strlit("\u{e7fb}"),
                Icon::Volume => reveal_strlit("\u{e050}"),
                Icon::Volume1 => reveal_strlit("\u{e04d}"),
                Icon::Volume2 => reveal_strlit("\u{e050}"),
                Icon::VolumeX => reveal_strlit("\u{e04f}"),
                Icon::Watch => reveal_strlit("\u{e334}"),
                Icon::X => reveal_strlit("\u{e5cd}"),
                Icon::Zap => reveal_strlit("\u{e8e8}"),
            }
            assert(g@ =~= seq![self.glyph()]);
        }
        g
    }
}

/// The transport icons: pause is drawn with the pause glyph U+E034 and play
/// with the play glyph U+E037, filled or not, so that playing and paused
/// differ; skipping back (U+E045) differs from skipping forward (U+E044);
/// repeating one track (U+E041) differs from repeating (U+E040); a saved
/// heart (U+E87D) differs from an unsaved one (U+E87E).
pub proof fn lemma_transport_glyphs()
    ensures
        Icon::Pause.glyph() == '\u{e034}',
        Icon::PauseFilled.glyph() == '\u{e034}',
        Icon::Play.glyph() == '\u{e037}',
        Icon::PlayFilled.glyph() == '\u{e037}',
        Icon::PauseFilled.glyph() != Icon::PlayFilled.glyph(),
        Icon::Pause.glyph() != Icon::Play.glyph(),
        Icon::SkipBack.glyph() == Icon::SkipBackFilled.glyph(),
        Icon::SkipForward.glyph() == Icon::SkipForwardFilled.glyph(),
        Icon::SkipBack.glyph() == '\u{e045}',
        Icon::SkipForward.glyph() == '\u{e044}',
        Icon::Repeat.glyph() == '\u{e040}',
        Icon::Repeat1.glyph() == '\u{e041}',
        Icon::Heart.glyph() == '\u{e87e}',
        Icon::HeartFilled.glyph() == '\u{e87d}',
{
}

/// Every glyph lies in the Private Use Area, where Material Symbols puts its
/// icons.
pub proof fn lemma_glyphs_private_use(i: Icon)
    ensures
        0xe000 <= i.glyph() as u32 <= 0xf8ff,
{
}

/// The image of a filled icon is that of its outlined icon with `-filled`
/// added to the asset name.
pub proof fn lemma_filled_assets()
    ensures
        Icon::BookmarkFilled.asset_name() == Icon::Bookmark.asset_name() + "-filled"@,
        Icon::HeartFilled.asset_name() == Icon::Heart.asset_name() + "-filled"@,
        Icon::PauseFilled.asset_name() == Icon::Pause.asset_name() + "-filled"@,
        Icon::PlayFilled.asset_name() == Icon::Play.asset_name() + "-filled"@,
        Icon::SkipBackFilled.asset_name() == Icon::SkipBack.asset_name() + "-filled"@,
        Icon::SkipForwardFilled.asset_name() == Icon::SkipForward.asset_name() + "-filled"@,
{
    reveal_strlit("-filled");
    reveal_strlit("bookmark");
    reveal_strlit("bookmark-filled");
    reveal_strlit("heart");
    reveal_strlit("heart-filled");
    reveal_strlit("pause");
    reveal_strlit("pause-filled");
    reveal_strlit("play");
    reveal_strlit("play-filled");
    reveal_strlit("skip-back");
    reveal_strlit("skip-back-filled");
    reveal_strlit("skip-forward");
    reveal_strlit("skip-forward-filled");
    assert(Icon::BookmarkFilled.asset_name() =~= Icon::Bookmark.asset_name() + "-filled"@);
    assert(Icon::HeartFilled.asset_name() =~= Icon::Heart.asset_name() + "-filled"@);
    assert(Icon::PauseFilled.asset_name() =~= Icon::Pause.asset_name() + "-filled"@);
    assert(Icon::PlayFilled.asset_name() =~= Icon::Play.asset_name() + "-filled"@);
    assert(Icon::SkipBackFilled.asset_name() =~= Icon::SkipBack.asset_name() + "-filled"@);
    assert(Icon::SkipForwardFilled.asset_name() =~= Icon::SkipForward.asset_name() + "-filled"@);
}

} // verus!
