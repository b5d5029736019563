//! Colors: channel values, named colors and the transparent color.

use vstd::prelude::*;
use super::number::{lemma_natural_text_nonempty, natural_string, natural_text, Decimal};
use super::IntoCss;

verus! {

/// The colors that have a name.
#[derive(Clone, Copy, Debug, PartialEq, Eq, Structural)]
pub enum NamedColor {
    Aliceblue,
    Antiquewhite,
    Aqua,
    Aquamarine,
    Azure,
    Beige,
    Bisque,
    Black,
    Blanchedalmond,
    Blue,
    Blueviolet,
    Brown,
    Burlywood,
    Cadetblue,
    Chartreuse,
    Chocolate,
    Coral,
    Cornflowerblue,
    Cornsilk,
    Crimson,
    Cyan,
    Darkblue,
    Darkcyan,
    Darkgoldenrod,
    Darkgray,
    Darkgreen,
    Darkgrey,
    Darkkhaki,
    Darkmagenta,
    Darkolivegreen,
    Darkorange,
    Darkorchid,
    Darkred,
    Darksalmon,
    Darkseagreen,
    Darkslateblue,
    Darkslategray,
    Darkslategrey,
    Darkturquoise,
    Darkviolet,
    Deeppink,
    Deepskyblue,
    Dimgray,
    Dimgrey,
    Dodgerblue,
    Firebrick,
    Floralwhite,
    Forestgreen,
    Fuchsia,
    Gainsboro,
    Ghostwhite,
    Gold,
    Goldenrod,
    Gray,
    Grey,
    Green,
    Greenyellow,
    Honeydew,
    Hotpink,
    Indianred,
    Indigo,
    Ivory,
    Khaki,
    Lavender,
    Lavenderblush,
    Lawngreen,
    Lemonchiffon,
    Lightblue,
    Lightcoral,
    Lightcyan,
    Lightgoldenrodyellow,
    Lightgray,
    Lightgreen,
    Lightgrey,
    Lightpink,
    Lightsalmon,
    Lightseagreen,
    Lightskyblue,
    Lightslategray,
    Lightslategrey,
    Lightsteelblue,
    Lightyellow,
    Lime,
    Limegreen,
    Linen,
    Magenta,
    Maroon,
    Mediumaquamarine,
    Mediumblue,
    Mediumorchid,
    Mediumpurple,
    Mediumseagreen,
    Mediumslateblue,
    Mediumspringgreen,
    Mediumturquoise,
    Mediumvioletred,
    Midnightblue,
    Mintcream,
    Mistyrose,
    Moccasin,
    Navajowhite,
    Navy,
    Oldlace,
    Olive,
    Olivedrab,
    Orange,
    Orangered,
    Orchid,
    Palegoldenrod,
    Palegreen,
    Paleturquoise,
    Palevioletred,
    Papayawhip,
    Peachpuff,
    Peru,
    Pink,
    Plum,
    Powderblue,
    Purple,
    Red,
    Rosybrown,
    Royalblue,
    Saddlebrown,
    Salmon,
    Sandybrown,
    Seagreen,
    Seashell,
    Sienna,
    Silver,
    Skyblue,
    Slateblue,
    Slategray,
    Slategrey,
    Snow,
    Springgreen,
    Steelblue,
    Tan,
    Teal,
    Thistle,
    Tomato,
    Turquoise,
    Violet,
    Wheat,
    White,
    Whitesmoke,
    Yellow,
    Yellowgreen,
}

impl NamedColor {
    /// The keyword that names the color.
    pub open spec fn name(self) -> Seq<char> {
        match self {
            NamedColor::Aliceblue => "aliceblue"@,
            NamedColor::Antiquewhite => "antiquewhite"@,
            NamedColor::Aqua => "aqua"@,
            NamedColor::Aquamarine => "aquamarine"@,
            NamedColor::Azure => "azure"@,
            NamedColor::Beige => "beige"@,
            NamedColor::Bisque => "bisque"@,
            NamedColor::Black => "black"@,
            NamedColor::Blanchedalmond => "blanchedalmond"@,
            NamedColor::Blue => "blue"@,
            NamedColor::Blueviolet => "blueviolet"@,
            NamedColor::Brown => "brown"@,
            NamedColor::Burlywood => "burlywood"@,
            NamedColor::Cadetblue => "cadetblue"@,
            NamedColor::Chartreuse => "chartreuse"@,
            NamedColor::Chocolate => "chocolate"@,
            NamedColor::Coral => "coral"@,
            NamedColor::Cornflowerblue => "cornflowerblue"@,
            NamedColor::Cornsilk => "cornsilk"@,
            NamedColor::Crimson => "crimson"@,
            NamedColor::Cyan => "cyan"@,
            NamedColor::Darkblue => "darkblue"@,
            NamedColor::Darkcyan => "darkcyan"@,
            NamedColor::Darkgoldenrod => "darkgoldenrod"@,
            NamedColor::Darkgray => "darkgray"@,
            NamedColor::Darkgreen => "darkgreen"@,
            NamedColor::Darkgrey => "darkgrey"@,
            NamedColor::Darkkhaki => "darkkhaki"@,
            NamedColor::Darkmagenta => "darkmagenta"@,
            NamedColor::Darkolivegreen => "darkolivegreen"@,
            NamedColor::Darkorange => "darkorange"@,
            NamedColor::Darkorchid => "darkorchid"@,
            NamedColor::Darkred => "darkred"@,
            NamedColor::Darksalmon => "darksalmon"@,
            NamedColor::Darkseagreen => "darkseagreen"@,
            NamedColor::Darkslateblue => "darkslateblue"@,
            NamedColor::Darkslategray => "darkslategray"@,
            NamedColor::Darkslategrey => "darkslategrey"@,
            NamedColor::Darkturquoise => "darkturquoise"@,
            NamedColor::Darkviolet => "darkviolet"@,
            NamedColor::Deeppink => "deeppink"@,
            NamedColor::Deepskyblue => "deepskyblue"@,
            NamedColor::Dimgray => "dimgray"@,
            NamedColor::Dimgrey => "dimgrey"@,
            NamedColor::Dodgerblue => "dodgerblue"@,
            NamedColor::Firebrick => "firebrick"@,
            NamedColor::Floralwhite => "floralwhite"@,
            NamedColor::Forestgreen => "forestgreen"@,
            NamedColor::Fuchsia => "fuchsia"@,
            NamedColor::Gainsboro => "gainsboro"@,
            NamedColor::Ghostwhite => "ghostwhite"@,
            NamedColor::Gold => "gold"@,
            NamedColor::Goldenrod => "goldenrod"@,
            NamedColor::Gray => "gray"@,
            NamedColor::Grey => "grey"@,
            NamedColor::Green => "green"@,
            NamedColor::Greenyellow => "greenyellow"@,
            NamedColor::Honeydew => "honeydew"@,
            NamedColor::Hotpink => "hotpink"@,
            NamedColor::Indianred => "indianred"@,
            NamedColor::Indigo => "indigo"@,
            NamedColor::Ivory => "ivory"@,
            NamedColor::Khaki => "khaki"@,
            NamedColor::Lavender => "lavender"@,
            NamedColor::Lavenderblush => "lavenderblush"@,
            NamedColor::Lawngreen => "lawngreen"@,
            NamedColor::Lemonchiffon => "lemonchiffon"@,
            NamedColor::Lightblue => "lightblue"@,
            NamedColor::Lightcoral => "lightcoral"@,
            NamedColor::Lightcyan => "lightcyan"@,
            NamedColor::Lightgoldenrodyellow => "lightgoldenrodyellow"@,
            NamedColor::Lightgray => "lightgray"@,
            NamedColor::Lightgreen => "lightgreen"@,
            NamedColor::Lightgrey => "lightgrey"@,
            NamedColor::Lightpink => "lightpink"@,
            NamedColor::Lightsalmon => "lightsalmon"@,
            NamedColor::Lightseagreen => "lightseagreen"@,
            NamedColor::Lightskyblue => "lightskyblue"@,
            NamedColor::Lightslategray => "lightslategray"@,
            NamedColor::Lightslategrey => "lightslategrey"@,
            NamedColor::Lightsteelblue => "lightsteelblue"@,
            NamedColor::Lightyellow => "lightyellow"@,
            NamedColor::Lime => "lime"@,
            NamedColor::Limegreen => "limegreen"@,
            NamedColor::Linen => "linen"@,
            NamedColor::Magenta => "magenta"@,
            NamedColor::Maroon => "maroon"@,
            NamedColor::Mediumaquamarine => "mediumaquamarine"@,
            NamedColor::Mediumblue => "mediumblue"@,
            NamedColor::Mediumorchid => "mediumorchid"@,
            NamedColor::Mediumpurple => "mediumpurple"@,
            NamedColor::Mediumseagreen => "mediumseagreen"@,
            NamedColor::Mediumslateblue => "mediumslateblue"@,
            NamedColor::Mediumspringgreen => "mediumspringgreen"@,
            NamedColor::Mediumturquoise => "mediumturquoise"@,
            NamedColor::Mediumvioletred => "mediumvioletred"@,
            NamedColor::Midnightblue => "midnightblue"@,
            NamedColor::Mintcream => "mintcream"@,
            NamedColor::Mistyrose => "mistyrose"@,
            NamedColor::Moccasin => "moccasin"@,
            NamedColor::Navajowhite => "navajowhite"@,
            NamedColor::Navy => "navy"@,
            NamedColor::Oldlace => "oldlace"@,
            NamedColor::Olive => "olive"@,
            NamedColor::Olivedrab => "olivedrab"@,
            NamedColor::Orange => "orange"@,
            NamedColor::Orangered => "orangered"@,
            NamedColor::Orchid => "orchid"@,
            NamedColor::Palegoldenrod => "palegoldenrod"@,
            NamedColor::Palegreen => "palegreen"@,
            NamedColor::Paleturquoise => "paleturquoise"@,
            NamedColor::Palevioletred => "palevioletred"@,
            NamedColor::Papayawhip => "papayawhip"@,
            NamedColor::Peachpuff => "peachpuff"@,
            NamedColor::Peru => "peru"@,
            NamedColor::Pink => "pink"@,
            NamedColor::Plum => "plum"@,
            NamedColor::Powderblue => "powderblue"@,
            NamedColor::Purple => "purple"@,
            NamedColor::Red => "red"@,
            NamedColor::Rosybrown => "rosybrown"@,
            NamedColor::Royalblue => "royalblue"@,
            NamedColor::Saddlebrown => "saddlebrown"@,
            NamedColor::Salmon => "salmon"@,
            NamedColor::Sandybrown => "sandybrown"@,
            NamedColor::Seagreen => "seagreen"@,
            NamedColor::Seashell => "seashell"@,
            NamedColor::Sienna => "sienna"@,
            NamedColor::Silver => "silver"@,
            NamedColor::Skyblue => "skyblue"@,
            NamedColor::Slateblue => "slateblue"@,
            NamedColor::Slategray => "slategray"@,
            NamedColor::Slategrey => "slategrey"@,
            NamedColor::Snow => "snow"@,
            NamedColor::Springgreen => "springgreen"@,
            NamedColor::Steelblue => "steelblue"@,
            NamedColor::Tan => "tan"@,
            NamedColor::Teal => "teal"@,
            NamedColor::Thistle => "thistle"@,
            NamedColor::Tomato => "tomato"@,
            NamedColor::Turquoise => "turquoise"@,
            NamedColor::Violet => "violet"@,
            NamedColor::Wheat => "wheat"@,
            NamedColor::White => "white"@,
            NamedColor::Whitesmoke => "whitesmoke"@,
            NamedColor::Yellow => "yellow"@,
            NamedColor::Yellowgreen => "yellowgreen"@,
        }
    }

    /// The red, green and blue channels of the color.
    pub open spec fn rgb(self) -> (u8, u8, u8) {
        match self {
            NamedColor::Aliceblue => (240, 248, 255),
            NamedColor::Antiquewhite => (250, 235, 215),
            NamedColor::Aqua => (0, 255, 255),
            NamedColor::Aquamarine => (127, 255, 212),
            NamedColor::Azure => (240, 255, 255),
            NamedColor::Beige => (245, 245, 220),
            NamedColor::Bisque => (255, 228, 196),
            NamedColor::Black => (0, 0, 0),
            NamedColor::Blanchedalmond => (255, 235, 205),
            NamedColor::Blue => (0, 0, 255),
            NamedColor::Blueviolet => (138, 43, 226),
            NamedColor::Brown => (165, 42, 42),
            NamedColor::Burlywood => (222, 184, 135),
            NamedColor::Cadetblue => (95, 158, 160),
            NamedColor::Chartreuse => (127, 255, 0),
            NamedColor::Chocolate => (210, 105, 30),
            NamedColor::Coral => (255, 127, 80),
            NamedColor::Cornflowerblue => (100, 149, 237),
            NamedColor::Cornsilk => (255, 248, 220),
            NamedColor::Crimson => (220, 20, 60),
            NamedColor::Cyan => (0, 255, 255),
            NamedColor::Darkblue => (0, 0, 139),
            NamedColor::Darkcyan => (0, 139, 139),
            NamedColor::Darkgoldenrod => (184, 134, 11),
            NamedColor::Darkgray => (169, 169, 169),
            NamedColor::Darkgreen => (0, 100, 0),
            NamedColor::Darkgrey => (169, 169, 169),
            NamedColor::Darkkhaki => (189, 183, 107),
            NamedColor::Darkmagenta => (139, 0, 139),
            NamedColor::Darkolivegreen => (85, 107, 47),
            NamedColor::Darkorange => (255, 140, 0),
            NamedColor::Darkorchid => (153, 50, 204),
            NamedColor::Darkred => (139, 0, 0),
            NamedColor::Darksalmon => (233, 150, 122),
            NamedColor::Darkseagreen => (143, 188, 143),
            NamedColor::Darkslateblue => (72, 61, 139),
            NamedColor::Darkslategray => (47, 79, 79),
            NamedColor::Darkslategrey => (47, 79, 79),
            NamedColor::Darkturquoise => (0, 206, 209),
            NamedColor::Darkviolet => (148, 0, 211),
            NamedColor::Deeppink => (255, 20, 147),
            NamedColor::Deepskyblue => (0, 191, 255),
            NamedColor::Dimgray => (105, 105, 105),
            NamedColor::Dimgrey => (105, 105, 105),
            NamedColor::Dodgerblue => (30, 144, 255),
            NamedColor::Firebrick => (178, 34, 34),
            NamedColor::Floralwhite => (255, 250, 240),
            NamedColor::Forestgreen => (34, 139, 34),
            NamedColor::Fuchsia => (255, 0, 255),
            NamedColor::Gainsboro => (220, 220, 220),
            NamedColor::Ghostwhite => (248, 248, 255),
            NamedColor::Gold => (255, 215, 0),
            NamedColor::Goldenrod => (218, 165, 32),
            NamedColor::Gray => (128, 128, 128),
            NamedColor::Grey => (128, 128, 128),
            NamedColor::Green => (0, 128, 0),
            NamedColor::Greenyellow => (173, 255, 47),
            NamedColor::Honeydew => (240, 255, 240),
            NamedColor::Hotpink => (255, 105, 180),
            NamedColor::Indianred => (205, 92, 92),
            NamedColor::Indigo => (75, 0, 130),
            NamedColor::Ivory => (255, 255, 240),
            NamedColor::Khaki => (240, 230, 140),
            NamedColor::Lavender => (230, 230, 250),
            NamedColor::Lavenderblush => (255, 240, 245),
            NamedColor::Lawngreen => (124, 252, 0),
            NamedColor::Lemonchiffon => (255, 250, 205),
            NamedColor::Lightblue => (173, 216, 230),
            NamedColor::Lightcoral => (240, 128, 128),
            NamedColor::Lightcyan => (224, 255, 255),
            NamedColor::Lightgoldenrodyellow => (250, 250, 210),
            NamedColor::Lightgray => (211, 211, 211),
            NamedColor::Lightgreen => (144, 238, 144),
            NamedColor::Lightgrey => (211, 211, 211),
            NamedColor::Lightpink => (255, 182, 193),
            NamedColor::Lightsalmon => (255, 160, 122),
            NamedColor::Lightseagreen => (32, 178, 170),
            NamedColor::Lightskyblue => (135, 206, 250),
            NamedColor::Lightslategray => (119, 136, 153),
            NamedColor::Lightslategrey => (119, 136, 153),
            NamedColor::Lightsteelblue => (176, 196, 222),
            NamedColor::Lightyellow => (255, 255, 224),
            NamedColor::Lime => (0, 255, 0),
            NamedColor::Limegreen => (50, 205, 50),
            NamedColor::Linen => (250, 240, 230),
            NamedColor::Magenta => (255, 0, 255),
            NamedColor::Maroon => (128, 0, 0),
            NamedColor::Mediumaquamarine => (102, 205, 170),
            NamedColor::Mediumblue => (0, 0, 205),
            NamedColor::Mediumorchid => (186, 85, 211),
            NamedColor::Mediumpurple => (147, 112, 219),
            NamedColor::Mediumseagreen => (60, 179, 113),
            NamedColor::Mediumslateblue => (123, 104, 238),
            NamedColor::Mediumspringgreen => (0, 250, 154),
            NamedColor::Mediumturquoise => (72, 209, 204),
            NamedColor::Mediumvioletred => (199, 21, 133),
            NamedColor::Midnightblue => (25, 25, 112),
            NamedColor::Mintcream => (245, 255, 250),
            NamedColor::Mistyrose => (255, 228, 225),
            NamedColor::Moccasin => (255, 228, 181),
            NamedColor::Navajowhite => (255, 222, 173),
            NamedColor::Navy => (0, 0, 128),
            NamedColor::Oldlace => (253, 245, 230),
            NamedColor::Olive => (128, 128, 0),
            NamedColor::Olivedrab => (107, 142, 35),
            NamedColor::Orange => (255, 165, 0),
            NamedColor::Orangered => (255, 69, 0),
            NamedColor::Orchid => (218, 112, 214),
            NamedColor::Palegoldenrod => (238, 232, 170),
            NamedColor::Palegreen => (152, 251, 152),
            NamedColor::Paleturquoise => (175, 238, 238),
            NamedColor::Palevioletred => (219, 112, 147),
            NamedColor::Papayawhip => (255, 239, 213),
            NamedColor::Peachpuff => (255, 218, 185),
            NamedColor::Peru => (205, 133, 63),
            NamedColor::Pink => (255, 192, 203),
            NamedColor::Plum => (221, 160, 221),
            NamedColor::Powderblue => (176, 224, 230),
            NamedColor::Purple => (128, 0, 128),
            NamedColor::Red => (255, 0, 0),
            NamedColor::Rosybrown => (188, 143, 143),
            NamedColor::Royalblue => (65, 105, 225),
            NamedColor::Saddlebrown => (139, 69, 19),
            NamedColor::Salmon => (250, 128, 114),
            NamedColor::Sandybrown => (244, 164, 96),
            NamedColor::Seagreen => (46, 139, 87),
            NamedColor::Seashell => (255, 245, 238),
            NamedColor::Sienna => (160, 82, 45),
            NamedColor::Silver => (192, 192, 192),
            NamedColor::Skyblue => (135, 206, 235),
            NamedColor::Slateblue => (106, 90, 205),
            NamedColor::Slategray => (112, 128, 144),
            NamedColor::Slategrey => (112, 128, 144),
            NamedColor::Snow => (255, 250, 250),
            NamedColor::Springgreen => (0, 255, 127),
            NamedColor::Steelblue => (70, 130, 180),
            NamedColor::Tan => (210, 180, 140),
            NamedColor::Teal => (0, 128, 128),
            NamedColor::Thistle => (216, 191, 216),
            NamedColor::Tomato => (255, 99, 71),
            NamedColor::Turquoise => (64, 224, 208),
            NamedColor::Violet => (238, 130, 238),
            NamedColor::Wheat => (245, 222, 179),
            NamedColor::White => (255, 255, 255),
            NamedColor::Whitesmoke => (245, 245, 245),
            NamedColor::Yellow => (255, 255, 0),
            NamedColor::Yellowgreen => (154, 205, 50),
        }
    }

    pub fn keyword(self) -> (word: &'static str)
        ensures
            word@ == self.name(),
    {
        match self {
            NamedColor::Aliceblue => "aliceblue",
            NamedColor::Antiquewhite => "antiquewhite",
            NamedColor::Aqua => "aqua",
            NamedColor::Aquamarine => "aquamarine",
            NamedColor::Azure => "azure",
            NamedColor::Beige => "beige",
            NamedColor::Bisque => "bisque",
            NamedColor::Black => "black",
            NamedColor::Blanchedalmond => "blanchedalmond",
            NamedColor::Blue => "blue",
            NamedColor::Blueviolet => "blueviolet",
            NamedColor::Brown => "brown",
            NamedColor::Burlywood => "burlywood",
            NamedColor::Cadetblue => "cadetblue",
            NamedColor::Chartreuse => "chartreuse",
            NamedColor::Chocolate => "chocolate",
            NamedColor::Coral => "coral",
            NamedColor::Cornflowerblue => "cornflowerblue",
            NamedColor::Cornsilk => "cornsilk",
            NamedColor::Crimson => "crimson",
            NamedColor::Cyan => "cyan",
            NamedColor::Darkblue => "darkblue",
            NamedColor::Darkcyan => "darkcyan",
            NamedColor::Darkgoldenrod => "darkgoldenrod",
            NamedColor::Darkgray => "darkgray",
            NamedColor::Darkgreen => "darkgreen",
            NamedColor::Darkgrey => "darkgrey",
            NamedColor::Darkkhaki => "darkkhaki",
            NamedColor::Darkmagenta => "darkmagenta",
            NamedColor::Darkolivegreen => "darkolivegreen",
            NamedColor::Darkorange => "darkorange",
            NamedColor::Darkorchid => "darkorchid",
            NamedColor::Darkred => "darkred",
            NamedColor::Darksalmon => "darksalmon",
            NamedColor::Darkseagreen => "darkseagreen",
            NamedColor::Darkslateblue => "darkslateblue",
            NamedColor::Darkslategray => "darkslategray",
            NamedColor::Darkslategrey => "darkslategrey",
            NamedColor::Darkturquoise => "darkturquoise",
            NamedColor::Darkviolet => "darkviolet",
            NamedColor::Deeppink => "deeppink",
            NamedColor::Deepskyblue => "deepskyblue",
            NamedColor::Dimgray => "dimgray",
            NamedColor::Dimgrey => "dimgrey",
            NamedColor::Dodgerblue => "dodgerblue",
            NamedColor::Firebrick => "firebrick",
            NamedColor::Floralwhite => "floralwhite",
            NamedColor::Forestgreen => "forestgreen",
            NamedColor::Fuchsia => "fuchsia",
            NamedColor::Gainsboro => "gainsboro",
            NamedColor::Ghostwhite => "ghostwhite",
            NamedColor::Gold => "gold",
            NamedColor::Goldenrod => "goldenrod",
            NamedColor::Gray => "gray",
            NamedColor::Grey => "grey",
            NamedColor::Green => "green",
            NamedColor::Greenyellow => "greenyellow",
            NamedColor::Honeydew => "honeydew",
            NamedColor::Hotpink => "hotpink",
            NamedColor::Indianred => "indianred",
            NamedColor::Indigo => "indigo",
            NamedColor::Ivory => "ivory",
            NamedColor::Khaki => "khaki",
            NamedColor::Lavender => "lavender",
            NamedColor::Lavenderblush => "lavenderblush",
            NamedColor::Lawngreen => "lawngreen",
            NamedColor::Lemonchiffon => "lemonchiffon",
            NamedColor::Lightblue => "lightblue",
            NamedColor::Lightcoral => "lightcoral",
            NamedColor::Lightcyan => "lightcyan",
            NamedColor::Lightgoldenrodyellow => "lightgoldenrodyellow",
            NamedColor::Lightgray => "lightgray",
            NamedColor::Lightgreen => "lightgreen",
            NamedColor::Lightgrey => "lightgrey",
            NamedColor::Lightpink => "lightpink",
            NamedColor::Lightsalmon => "lightsalmon",
            NamedColor::Lightseagreen => "lightseagreen",
            NamedColor::Lightskyblue => "lightskyblue",
            NamedColor::Lightslategray => "lightslategray",
            NamedColor::Lightslategrey => "lightslategrey",
            NamedColor::Lightsteelblue => "lightsteelblue",
            NamedColor::Lightyellow => "lightyellow",
            NamedColor::Lime => "lime",
            NamedColor::Limegreen => "limegreen",
            NamedColor::Linen => "linen",
            NamedColor::Magenta => "magenta",
            NamedColor::Maroon => "maroon",
            NamedColor::Mediumaquamarine => "mediumaquamarine",
            NamedColor::Mediumblue => "mediumblue",
            NamedColor::Mediumorchid => "mediumorchid",
            NamedColor::Mediumpurple => "mediumpurple",
            NamedColor::Mediumseagreen => "mediumseagreen",
            NamedColor::Mediumslateblue => "mediumslateblue",
            NamedColor::Mediumspringgreen => "mediumspringgreen",
            NamedColor::Mediumturquoise => "mediumturquoise",
            NamedColor::Mediumvioletred => "mediumvioletred",
            NamedColor::Midnightblue => "midnightblue",
            NamedColor::Mintcream => "mintcream",
            NamedColor::Mistyrose => "mistyrose",
            NamedColor::Moccasin => "moccasin",
            NamedColor::Navajowhite => "navajowhite",
            NamedColor::Navy => "navy",
            NamedColor::Oldlace => "oldlace",
            NamedColor::Olive => "olive",
            NamedColor::Olivedrab => "olivedrab",
            NamedColor::Orange => "orange",
            NamedColor::Orangered => "orangered",
            NamedColor::Orchid => "orchid",
            NamedColor::Palegoldenrod => "palegoldenrod",
            NamedColor::Palegreen => "palegreen",
            NamedColor::Paleturquoise => "paleturquoise",
            NamedColor::Palevioletred => "palevioletred",
            NamedColor::Papayawhip => "papayawhip",
            NamedColor::Peachpuff => "peachpuff",
            NamedColor::Peru => "peru",
            NamedColor::Pink => "pink",
            NamedColor::Plum => "plum",
            NamedColor::Powderblue => "powderblue",
            NamedColor::Purple => "purple",
            NamedColor::Red => "red",
            NamedColor::Rosybrown => "rosybrown",
            NamedColor::Royalblue => "royalblue",
            NamedColor::Saddlebrown => "saddlebrown",
            NamedColor::Salmon => "salmon",
            NamedColor::Sandybrown => "sandybrown",
            NamedColor::Seagreen => "seagreen",
            NamedColor::Seashell => "seashell",
            NamedColor::Sienna => "sienna",
            NamedColor::Silver => "silver",
            NamedColor::Skyblue => "skyblue",
            NamedColor::Slateblue => "slateblue",
            NamedColor::Slategray => "slategray",
            NamedColor::Slategrey => "slategrey",
            NamedColor::Snow => "snow",
            NamedColor::Springgreen => "springgreen",
            NamedColor::Steelblue => "steelblue",
            NamedColor::Tan => "tan",
            NamedColor::Teal => "teal",
            NamedColor::Thistle => "thistle",
            NamedColor::Tomato => "tomato",
            NamedColor::Turquoise => "turquoise",
            NamedColor::Violet => "violet",
            NamedColor::Wheat => "wheat",
            NamedColor::White => "white",
            NamedColor::Whitesmoke => "whitesmoke",
            NamedColor::Yellow => "yellow",
            NamedColor::Yellowgreen => "yellowgreen",
        }
    }

    /// Looks the color up as channel values.
    pub fn to_rgb(self) -> (color: Color)
        ensures
            color == Color::RGB(self.rgb().0, self.rgb().1, self.rgb().2),
    {
        match self {
            NamedColor::Aliceblue => Color::RGB(240, 248, 255),
            NamedColor::Antiquewhite => Color::RGB(250, 235, 215),
            NamedColor::Aqua => Color::RGB(0, 255, 255),
            NamedColor::Aquamarine => Color::RGB(127, 255, 212),
            NamedColor::Azure => Color::RGB(240, 255, 255),
            NamedColor::Beige => Color::RGB(245, 245, 220),
            NamedColor::Bisque => Color::RGB(255, 228, 196),
            NamedColor::Black => Color::RGB(0, 0, 0),
            NamedColor::Blanchedalmond => Color::RGB(255, 235, 205),
            NamedColor::Blue => Color::RGB(0, 0, 255),
            NamedColor::Blueviolet => Color::RGB(138, 43, 226),
            NamedColor::Brown => Color::RGB(165, 42, 42),
            NamedColor::Burlywood => Color::RGB(222, 184, 135),
            NamedColor::Cadetblue => Color::RGB(95, 158, 160),
            NamedColor::Chartreuse => Color::RGB(127, 255, 0),
            NamedColor::Chocolate => Color::RGB(210, 105, 30),
            NamedColor::Coral => Color::RGB(255, 127, 80),
            NamedColor::Cornflowerblue => Color::RGB(100, 149, 237),
            NamedColor::Cornsilk => Color::RGB(255, 248, 220),
            NamedColor::Crimson => Color::RGB(220, 20, 60),
            NamedColor::Cyan => Color::RGB(0, 255, 255),
            NamedColor::Darkblue => Color::RGB(0, 0, 139),
            NamedColor::Darkcyan => Color::RGB(0, 139, 139),
            NamedColor::Darkgoldenrod => Color::RGB(184, 134, 11),
            NamedColor::Darkgray => Color::RGB(169, 169, 169),
            NamedColor::Darkgreen => Color::RGB(0, 100, 0),
            NamedColor::Darkgrey => Color::RGB(169, 169, 169),
            NamedColor::Darkkhaki => Color::RGB(189, 183, 107),
            NamedColor::Darkmagenta => Color::RGB(139, 0, 139),
            NamedColor::Darkolivegreen => Color::RGB(85, 107, 47),
            NamedColor::Darkorange => Color::RGB(255, 140, 0),
            NamedColor::Darkorchid => Color::RGB(153, 50, 204),
            NamedColor::Darkred => Color::RGB(139, 0, 0),
            NamedColor::Darksalmon => Color::RGB(233, 150, 122),
            NamedColor::Darkseagreen => Color::RGB(143, 188, 143),
            NamedColor::Darkslateblue => Color::RGB(72, 61, 139),
            NamedColor::Darkslategray => Color::RGB(47, 79, 79),
            NamedColor::Darkslategrey => Color::RGB(47, 79, 79),
            NamedColor::Darkturquoise => Color::RGB(0, 206, 209),
            NamedColor::Darkviolet => Color::RGB(148, 0, 211),
            NamedColor::Deeppink => Color::RGB(255, 20, 147),
            NamedColor::Deepskyblue => Color::RGB(0, 191, 255),
            NamedColor::Dimgray => Color::RGB(105, 105, 105),
            NamedColor::Dimgrey => Color::RGB(105, 105, 105),
            NamedColor::Dodgerblue => Color::RGB(30, 144, 255),
            NamedColor::Firebrick => Color::RGB(178, 34, 34),
            NamedColor::Floralwhite => Color::RGB(255, 250, 240),
            NamedColor::Forestgreen => Color::RGB(34, 139, 34),
            NamedColor::Fuchsia => Color::RGB(255, 0, 255),
            NamedColor::Gainsboro => Color::RGB(220, 220, 220),
            NamedColor::Ghostwhite => Color::RGB(248, 248, 255),
            NamedColor::Gold => Color::RGB(255, 215, 0),
            NamedColor::Goldenrod => Color::RGB(218, 165, 32),
            NamedColor::Gray => Color::RGB(128, 128, 128),
            NamedColor::Grey => Color::RGB(128, 128, 128),
            NamedColor::Green => Color::RGB(0, 128, 0),
            NamedColor::Greenyellow => Color::RGB(173, 255, 47),
            NamedColor::Honeydew => Color::RGB(240, 255, 240),
            NamedColor::Hotpink => Color::RGB(255, 105, 180),
            NamedColor::Indianred => Color::RGB(205, 92, 92),
            NamedColor::Indigo => Color::RGB(75, 0, 130),
            NamedColor::Ivory => Color::RGB(255, 255, 240),
            NamedColor::Khaki => Color::RGB(240, 230, 140),
            NamedColor::Lavender => Color::RGB(230, 230, 250),
            NamedColor::Lavenderblush => Color::RGB(255, 240, 245),
            NamedColor::Lawngreen => Color::RGB(124, 252, 0),
            NamedColor::Lemonchiffon => Color::RGB(255, 250, 205),
            NamedColor::Lightblue => Color::RGB(173, 216, 230),
            NamedColor::Lightcoral => Color::RGB(240, 128, 128),
            NamedColor::Lightcyan => Color::RGB(224, 255, 255),
            NamedColor::Lightgoldenrodyellow => Color::RGB(250, 250, 210),
            NamedColor::Lightgray => Color::RGB(211, 211, 211),
            NamedColor::Lightgreen => Color::RGB(144, 238, 144),
            NamedColor::Lightgrey => Color::RGB(211, 211, 211),
            NamedColor::Lightpink => Color::RGB(255, 182, 193),
            NamedColor::Lightsalmon => Color::RGB(255, 160, 122),
            NamedColor::Lightseagreen => Color::RGB(32, 178, 170),
            NamedColor::Lightskyblue => Color::RGB(135, 206, 250),
            NamedColor::Lightslategray => Color::RGB(119, 136, 153),
            NamedColor::Lightslategrey => Color::RGB(119, 136, 153),
            NamedColor::Lightsteelblue => Color::RGB(176, 196, 222),
            NamedColor::Lightyellow => Color::RGB(255, 255, 224),
            NamedColor::Lime => Color::RGB(0, 255, 0),
            NamedColor::Limegreen => Color::RGB(50, 205, 50),
            NamedColor::Linen => Color::RGB(250, 240, 230),
            NamedColor::Magenta => Color::RGB(255, 0, 255),
            NamedColor::Maroon => Color::RGB(128, 0, 0),
            NamedColor::Mediumaquamarine => Color::RGB(102, 205, 170),
            NamedColor::Mediumblue => Color::RGB(0, 0, 205),
            NamedColor::Mediumorchid => Color::RGB(186, 85, 211),
            NamedColor::Mediumpurple => Color::RGB(147, 112, 219),
            NamedColor::Mediumseagreen => Color::RGB(60, 179, 113),
            NamedColor::Mediumslateblue => Color::RGB(123, 104, 238),
            NamedColor::Mediumspringgreen => Color::RGB(0, 250, 154),
            NamedColor::Mediumturquoise => Color::RGB(72, 209, 204),
            NamedColor::Mediumvioletred => Color::RGB(199, 21, 133),
            NamedColor::Midnightblue => Color::RGB(25, 25, 112),
            NamedColor::Mintcream => Color::RGB(245, 255, 250),
            NamedColor::Mistyrose => Color::RGB(255, 228, 225),
            NamedColor::Moccasin => Color::RGB(255, 228, 181),
            NamedColor::Navajowhite => Color::RGB(255, 222, 173),
            NamedColor::Navy => Color::RGB(0, 0, 128),
            NamedColor::Oldlace => Color::RGB(253, 245, 230),
            NamedColor::Olive => Color::RGB(128, 128, 0),
            NamedColor::Olivedrab => Color::RGB(107, 142, 35),
            NamedColor::Orange => Color::RGB(255, 165, 0),
            NamedColor::Orangered => Color::RGB(255, 69, 0),
            NamedColor::Orchid => Color::RGB(218, 112, 214),
            NamedColor::Palegoldenrod => Color::RGB(238, 232, 170),
            NamedColor::Palegreen => Color::RGB(152, 251, 152),
            NamedColor::Paleturquoise => Color::RGB(175, 238, 238),
            NamedColor::Palevioletred => Color::RGB(219, 112, 147),
            NamedColor::Papayawhip => Color::RGB(255, 239, 213),
            NamedColor::Peachpuff => Color::RGB(255, 218, 185),
            NamedColor::Peru => Color::RGB(205, 133, 63),
            NamedColor::Pink => Color::RGB(255, 192, 203),
            NamedColor::Plum => Color::RGB(221, 160, 221),
            NamedColor::Powderblue => Color::RGB(176, 224, 230),
            NamedColor::Purple => Color::RGB(128, 0, 128),
            NamedColor::Red => Color::RGB(255, 0, 0),
            NamedColor::Rosybrown => Color::RGB(188, 143, 143),
            NamedColor::Royalblue => Color::RGB(65, 105, 225),
            NamedColor::Saddlebrown => Color::RGB(139, 69, 19),
            NamedColor::Salmon => Color::RGB(250, 128, 114),
            NamedColor::Sandybrown => Color::RGB(244, 164, 96),
            NamedColor::Seagreen => Color::RGB(46, 139, 87),
            NamedColor::Seashell => Color::RGB(255, 245, 238),
            NamedColor::Sienna => Color::RGB(160, 82, 45),
            NamedColor::Silver => Color::RGB(192, 192, 192),
            NamedColor::Skyblue => Color::RGB(135, 206, 235),
            NamedColor::Slateblue => Color::RGB(106, 90, 205),
            NamedColor::Slategray => Color::RGB(112, 128, 144),
            NamedColor::Slategrey => Color::RGB(112, 128, 144),
            NamedColor::Snow => Color::RGB(255, 250, 250),
            NamedColor::Springgreen => Color::RGB(0, 255, 127),
            NamedColor::Steelblue => Color::RGB(70, 130, 180),
            NamedColor::Tan => Color::RGB(210, 180, 140),
            NamedColor::Teal => Color::RGB(0, 128, 128),
            NamedColor::Thistle => Color::RGB(216, 191, 216),
            NamedColor::Tomato => Color::RGB(255, 99, 71),
            NamedColor::Turquoise => Color::RGB(64, 224, 208),
            NamedColor::Violet => Color::RGB(238, 130, 238),
            NamedColor::Wheat => Color::RGB(245, 222, 179),
            NamedColor::White => Color::RGB(255, 255, 255),
            NamedColor::Whitesmoke => Color::RGB(245, 245, 245),
            NamedColor::Yellow => Color::RGB(255, 255, 0),
            NamedColor::Yellowgreen => Color::RGB(154, 205, 50),
        }
    }

    /// Looks the color up as channel values, fully opaque.
    pub fn to_rgba(self) -> (color: Color)
        ensures
            color == Color::RGBA(self.rgb().0, self.rgb().1, self.rgb().2, Decimal::of_integer(1)),
    {
        match self.to_rgb() {
            Color::RGB(r, g, b) => Color::RGBA(r, g, b, Decimal::from_integer(1)),
            other => other,
        }
    }
}

/// A color.
#[derive(Clone, Copy, Debug, PartialEq, Eq, Structural)]
pub enum Color {
    /// Red, green and blue.
    RGB(u8, u8, u8),
    /// Red, green, blue and opacity.
    RGBA(u8, u8, u8, Decimal),
    Named(NamedColor),
    Transparent,
}

impl IntoCss for Color {
    open spec fn renderable(&self) -> bool {
        true
    }

    open spec fn css(&self) -> Seq<char> {
        match self {
            Color::RGB(r, g, b) => "rgb("@ + natural_text(*r as nat) + ", "@ + natural_text(
                *g as nat,
            ) + ", "@ + natural_text(*b as nat) + ")"@,
            Color::RGBA(r, g, b, a) => "rgba("@ + natural_text(*r as nat) + ", "@ + natural_text(
                *g as nat,
            ) + ", "@ + natural_text(*b as nat) + ", "@ + a.text() + ")"@,
            Color::Named(name) => name.name(),
            Color::Transparent => "transparent"@,
        }
    }

    fn into_css(self) -> (text: String) {
        match self {
            Color::RGB(r, g, b) => {
                let mut text = String::from_str("rgb(");
                text.append(natural_string(r as u64).as_str());
                text.append(", ");
                text.append(natural_string(g as u64).as_str());
                text.append(", ");
                text.append(natural_string(b as u64).as_str());
                text.append(")");
                text
            },
            Color::RGBA(r, g, b, a) => {
                let mut text = String::from_str("rgba(");
                text.append(natural_string(r as u64).as_str());
                text.append(", ");
                text.append(natural_string(g as u64).as_str());
                text.append(", ");
                text.append(natural_string(b as u64).as_str());
                text.append(", ");
                text.append(a.render().as_str());
                text.append(")");
                text
            },
            Color::Named(name) => String::from_str(name.keyword()),
            Color::Transparent => String::from_str("transparent"),
        }
    }
}

impl From<NamedColor> for Color {
    fn from(color: NamedColor) -> (named: Self) {
        Color::Named(color)
    }
}

impl vstd::std_specs::convert::FromSpecImpl<NamedColor> for Color {
    open spec fn obeys_from_spec() -> bool {
        true
    }

    open spec fn from_spec(color: NamedColor) -> Self {
        Color::Named(color)
    }
}

impl From<(u8, u8, u8)> for Color {
    fn from(rgb: (u8, u8, u8)) -> (color: Self) {
        Color::RGB(rgb.0, rgb.1, rgb.2)
    }
}

impl vstd::std_specs::convert::FromSpecImpl<(u8, u8, u8)> for Color {
    open spec fn obeys_from_spec() -> bool {
        true
    }

    open spec fn from_spec(rgb: (u8, u8, u8)) -> Self {
        Color::RGB(rgb.0, rgb.1, rgb.2)
    }
}

impl From<(u8, u8, u8, Decimal)> for Color {
    fn from(rgba: (u8, u8, u8, Decimal)) -> (color: Self) {
        Color::RGBA(rgba.0, rgba.1, rgba.2, rgba.3)
    }
}

impl vstd::std_specs::convert::FromSpecImpl<(u8, u8, u8, Decimal)> for Color {
    open spec fn obeys_from_spec() -> bool {
        true
    }

    open spec fn from_spec(rgba: (u8, u8, u8, Decimal)) -> Self {
        Color::RGBA(rgba.0, rgba.1, rgba.2, rgba.3)
    }
}

/// Every color name is a word: its text is never empty.
pub proof fn lemma_name_nonempty(color: NamedColor)
    ensures
        color.name().len() > 0,
{
    reveal_strlit("aliceblue");
    reveal_strlit("antiquewhite");
    reveal_strlit("aqua");
    reveal_strlit("aquamarine");
    reveal_strlit("azure");
    reveal_strlit("beige");
    reveal_strlit("bisque");
    reveal_strlit("black");
    reveal_strlit("blanchedalmond");
    reveal_strlit("blue");
    reveal_strlit("blueviolet");
    reveal_strlit("brown");
    reveal_strlit("burlywood");
    reveal_strlit("cadetblue");
    reveal_strlit("chartreuse");
    reveal_strlit("chocolate");
    reveal_strlit("coral");
    reveal_strlit("cornflowerblue");
    reveal_strlit("cornsilk");
    reveal_strlit("crimson");
    reveal_strlit("cyan");
    reveal_strlit("darkblue");
    reveal_strlit("darkcyan");
    reveal_strlit("darkgoldenrod");
    reveal_strlit("darkgray");
    reveal_strlit("darkgreen");
    reveal_strlit("darkgrey");
    reveal_strlit("darkkhaki");
    reveal_strlit("darkmagenta");
    reveal_strlit("darkolivegreen");
    reveal_strlit("darkorange");
    reveal_strlit("darkorchid");
    reveal_strlit("darkred");
    reveal_strlit("darksalmon");
    reveal_strlit("darkseagreen");
    reveal_strlit("darkslateblue");
    reveal_strlit("darkslategray");
    reveal_strlit("darkslategrey");
    reveal_strlit("darkturquoise");
    reveal_strlit("darkviolet");
    reveal_strlit("deeppink");
    reveal_strlit("deepskyblue");
    reveal_strlit("dimgray");
    reveal_strlit("dimgrey");
    reveal_strlit("dodgerblue");
    reveal_strlit("firebrick");
    reveal_strlit("floralwhite");
    reveal_strlit("forestgreen");
    reveal_strlit("fuchsia");
    reveal_strlit("gainsboro");
    reveal_strlit("ghostwhite");
    reveal_strlit("gold");
    reveal_strlit("goldenrod");
    reveal_strlit("gray");
    reveal_strlit("grey");
    reveal_strlit("green");
    reveal_strlit("greenyellow");
    reveal_strlit("honeydew");
    reveal_strlit("hotpink");
    reveal_strlit("indianred");
    reveal_strlit("indigo");
    reveal_strlit("ivory");
    reveal_strlit("khaki");
    reveal_strlit("lavender");
    reveal_strlit("lavenderblush");
    reveal_strlit("lawngreen");
    reveal_strlit("lemonchiffon");
    reveal_strlit("lightblue");
    reveal_strlit("lightcoral");
    reveal_strlit("lightcyan");
    reveal_strlit("lightgoldenrodyellow");
    reveal_strlit("lightgray");
    reveal_strlit("lightgreen");
    reveal_strlit("lightgrey");
    reveal_strlit("lightpink");
    reveal_strlit("lightsalmon");
    reveal_strlit("lightseagreen");
    reveal_strlit("lightskyblue");
    reveal_strlit("lightslategray");
    reveal_strlit("lightslategrey");
    reveal_strlit("lightsteelblue");
    reveal_strlit("lightyellow");
    reveal_strlit("lime");
    reveal_strlit("limegreen");
    reveal_strlit("linen");
    reveal_strlit("magenta");
    reveal_strlit("maroon");
    reveal_strlit("mediumaquamarine");
    reveal_strlit("mediumblue");
    reveal_strlit("mediumorchid");
    reveal_strlit("mediumpurple");
    reveal_strlit("mediumseagreen");
    reveal_strlit("mediumslateblue");
    reveal_strlit("mediumspringgreen");
    reveal_strlit("mediumturquoise");
    reveal_strlit("mediumvioletred");
    reveal_strlit("midnightblue");
    reveal_strlit("mintcream");
    reveal_strlit("mistyrose");
    reveal_strlit("moccasin");
    reveal_strlit("navajowhite");
    reveal_strlit("navy");
    reveal_strlit("oldlace");
    reveal_strlit("olive");
    reveal_strlit("olivedrab");
    reveal_strlit("orange");
    reveal_strlit("orangered");
    reveal_strlit("orchid");
    reveal_strlit("palegoldenrod");
    reveal_strlit("palegreen");
    reveal_strlit("paleturquoise");
    reveal_strlit("palevioletred");
    reveal_strlit("papayawhip");
    reveal_strlit("peachpuff");
    reveal_strlit("peru");
    reveal_strlit("pink");
    reveal_strlit("plum");
    reveal_strlit("powderblue");
    reveal_strlit("purple");
    reveal_strlit("red");
    reveal_strlit("rosybrown");
    reveal_strlit("royalblue");
    reveal_strlit("saddlebrown");
    reveal_strlit("salmon");
    reveal_strlit("sandybrown");
    reveal_strlit("seagreen");
    reveal_strlit("seashell");
    reveal_strlit("sienna");
    reveal_strlit("silver");
    reveal_strlit("skyblue");
    reveal_strlit("slateblue");
    reveal_strlit("slategray");
    reveal_strlit("slategrey");
    reveal_strlit("snow");
    reveal_strlit("springgreen");
    reveal_strlit("steelblue");
    reveal_strlit("tan");
    reveal_strlit("teal");
    reveal_strlit("thistle");
    reveal_strlit("tomato");
    reveal_strlit("turquoise");
    reveal_strlit("violet");
    reveal_strlit("wheat");
    reveal_strlit("white");
    reveal_strlit("whitesmoke");
    reveal_strlit("yellow");
    reveal_strlit("yellowgreen");
}

/// The text of a color is never empty.
pub proof fn lemma_color_text_nonempty(color: Color)
    ensures
        color.css().len() > 0,
{
    match color {
        Color::RGB(r, _, _) => {
            lemma_natural_text_nonempty(r as nat);
        },
        Color::RGBA(r, _, _, _) => {
            lemma_natural_text_nonempty(r as nat);
        },
        Color::Named(name) => {
            lemma_name_nonempty(name);
        },
        Color::Transparent => {
            reveal_strlit("transparent");
        },
    }
}

} // verus!
