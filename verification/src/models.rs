//! The entities that the decoders build.
//!
//! Each entity comes with a view: a mathematical record of what it holds, with
//! every text as a sequence of characters. Constructors, getters and setters
//! are specified over the views.

use vstd::prelude::*;
use crate::parsing::{Failure, ParseError};
use crate::text::{texts, to_chars};

verus! {

/// The releases of the file format.
#[allow(non_camel_case_types)]
#[derive(Clone, Copy, Debug, PartialEq, Eq, Structural)]
pub enum Version {
    V_5_40_41_2_0_4,
    V_5_40_41_2_0_5,
    V_5_40_41_2_0_6,
    V_5_40_41_2_0_7,
}

/// The languages of the translated texts.
#[derive(Clone, Copy, Debug, PartialEq, Eq, Hash, Structural)]
pub enum Language {
    German,
    English,
    French,
    Italian,
}

/// The language that a three-letter code stands for.
pub open spec fn language_of(code: Seq<char>) -> Option<Language> {
    if code == seq!['d', 'e', 'u'] {
        Some(Language::German)
    } else if code == seq!['e', 'n', 'g'] {
        Some(Language::English)
    } else if code == seq!['f', 'r', 'a'] {
        Some(Language::French)
    } else if code == seq!['i', 't', 'a'] {
        Some(Language::Italian)
    } else {
        None
    }
}

/// Whether a text reads exactly these three characters.
pub fn is_code(chars: &[char], a: char, b: char, c: char) -> (same: bool)
    ensures
        same == (chars@ == seq![a, b, c]),
{
    if chars.len() == 3 && chars[0] == a && chars[1] == b && chars[2] == c {
        assert(chars@ =~= seq![a, b, c]);
        true
    } else {
        proof {
            if chars@.len() == 3 {
                assert(seq![a, b, c][0] == a && seq![a, b, c][1] == b && seq![a, b, c][2] == c);
            } else {
                assert(seq![a, b, c].len() == 3);
            }
        }
        false
    }
}

impl Default for Language {
    /// The language that is current before a file names one.
    fn default() -> (language: Language)
        ensures
            language == Language::German,
    {
        Language::German
    }
}

impl Language {
    /// Reads a three-letter language code: `deu`, `eng`, `fra` or `ita`.
    pub fn from_str(code: &str) -> (result: Result<Language, ParseError>)
        ensures
            match result {
                Ok(language) => language_of(code@) == Some(language),
                Err(e) => language_of(code@) is None && e@ == Failure::UnknownLanguage,
            },
    {
        let chars = to_chars(code);
        Self::from_chars(chars.as_slice())
    }

    /// Reads a three-letter language code from its characters.
    pub fn from_chars(chars: &[char]) -> (result: Result<Language, ParseError>)
        ensures
            match result {
                Ok(language) => language_of(chars@) == Some(language),
                Err(e) => language_of(chars@) is None && e@ == Failure::UnknownLanguage,
            },
    {
        if is_code(chars, 'd', 'e', 'u') {
            Ok(Language::German)
        } else if is_code(chars, 'e', 'n', 'g') {
            Ok(Language::English)
        } else if is_code(chars, 'f', 'r', 'a') {
            Ok(Language::French)
        } else if is_code(chars, 'i', 't', 'a') {
            Ok(Language::Italian)
        } else {
            Err(ParseError::UnknownLanguage)
        }
    }
}

/// The reference systems of coordinates.
#[derive(Clone, Copy, Debug, PartialEq, Eq, Structural)]
pub enum CoordinateType {
    LV95,
    WGS84,
}

/// A calendar day.
#[derive(Clone, Copy, Debug, PartialEq, Eq, Structural)]
pub struct Date {
    pub year: i32,
    pub month: u32,
    pub day: u32,
}

/// A colour by its red, green and blue parts.
#[derive(Clone, Copy, Debug, PartialEq, Eq, Structural)]
pub struct Color {
    pub r: i16,
    pub g: i16,
    pub b: i16,
}

impl Color {
    pub fn new(r: i16, g: i16, b: i16) -> (color: Self)
        ensures
            color == (Color { r, g, b }),
    {
        Color { r, g, b }
    }

    /// The colour that a line has before its file names one.
    pub fn black() -> (color: Self)
        ensures
            color == (Color { r: 0, g: 0, b: 0 }),
    {
        Color { r: 0, g: 0, b: 0 }
    }
}

/// The text of an optional string.
pub open spec fn optional_text(text: Option<String>) -> Option<Seq<char>> {
    match text {
        Some(text) => Some(text@),
        None => None,
    }
}

/// The texts of an optional list of strings.
pub open spec fn optional_texts(list: Option<Vec<String>>) -> Option<Seq<Seq<char>>> {
    match list {
        Some(list) => Some(texts(list@)),
        None => None,
    }
}

/// What an optional coordinate holds.
pub open spec fn optional_coordinate(coordinate: Option<Coordinate>) -> Option<CoordinateData> {
    match coordinate {
        Some(coordinate) => Some(coordinate@),
        None => None,
    }
}

/// A text in up to four languages.
#[derive(Debug)]
pub struct Translations {
    german: Option<String>,
    english: Option<String>,
    french: Option<String>,
    italian: Option<String>,
}

/// What a [`Translations`] holds, as mathematics.
pub ghost struct TranslatedText {
    pub german: Option<Seq<char>>,
    pub english: Option<Seq<char>>,
    pub french: Option<Seq<char>>,
    pub italian: Option<Seq<char>>,
}

impl TranslatedText {
    /// No text in any language.
    pub open spec fn none() -> TranslatedText {
        TranslatedText { german: None, english: None, french: None, italian: None }
    }

    /// The text in one language.
    pub open spec fn get(self, language: Language) -> Option<Seq<char>> {
        match language {
            Language::German => self.german,
            Language::English => self.english,
            Language::French => self.french,
            Language::Italian => self.italian,
        }
    }

    /// The same texts, but for one language, which gets a new text.
    pub open spec fn with(self, language: Language, text: Seq<char>) -> TranslatedText {
        match language {
            Language::German => TranslatedText { german: Some(text), ..self },
            Language::English => TranslatedText { english: Some(text), ..self },
            Language::French => TranslatedText { french: Some(text), ..self },
            Language::Italian => TranslatedText { italian: Some(text), ..self },
        }
    }
}

impl View for Translations {
    type V = TranslatedText;

    closed spec fn view(&self) -> TranslatedText {
        TranslatedText {
            german: optional_text(self.german),
            english: optional_text(self.english),
            french: optional_text(self.french),
            italian: optional_text(self.italian),
        }
    }
}

impl Translations {
    /// No text in any language.
    pub fn new() -> (texts: Self)
        ensures
            texts@ == TranslatedText::none(),
    {
        Translations { german: None, english: None, french: None, italian: None }
    }

    /// Sets the text in one language. An earlier text in that language is replaced.
    pub fn set(&mut self, language: Language, text: String)
        ensures
            final(self)@ == old(self)@.with(language, text@),
    {
        match language {
            Language::German => {
                self.german = Some(text);
            },
            Language::English => {
                self.english = Some(text);
            },
            Language::French => {
                self.french = Some(text);
            },
            Language::Italian => {
                self.italian = Some(text);
            },
        }
    }

    /// The text in one language.
    pub fn get(&self, language: Language) -> (text: &Option<String>)
        ensures
            optional_text(*text) == self@.get(language),
    {
        match language {
            Language::German => &self.german,
            Language::English => &self.english,
            Language::French => &self.french,
            Language::Italian => &self.italian,
        }
    }
}

/// A position: two real numbers, kept as the decimal texts that were read,
/// and a height in metres.
#[derive(Debug)]
pub struct Coordinate {
    coordinate_type: CoordinateType,
    x: String,
    y: String,
    z: i16,
}

/// What a [`Coordinate`] holds, as mathematics.
pub ghost struct CoordinateData {
    pub coordinate_type: CoordinateType,
    pub x: Seq<char>,
    pub y: Seq<char>,
    pub z: i16,
}

impl CoordinateData {
    /// The position that an entity has before its file names one.
    pub open spec fn origin() -> CoordinateData {
        CoordinateData { coordinate_type: CoordinateType::LV95, x: seq!['0'], y: seq!['0'], z: 0 }
    }
}

impl View for Coordinate {
    type V = CoordinateData;

    closed spec fn view(&self) -> CoordinateData {
        CoordinateData { coordinate_type: self.coordinate_type, x: self.x@, y: self.y@, z: self.z }
    }
}

impl Coordinate {
    pub fn new(coordinate_type: CoordinateType, x: String, y: String, z: i16) -> (coordinate: Self)
        ensures
            coordinate@ == (CoordinateData { coordinate_type, x: x@, y: y@, z }),
    {
        Self { coordinate_type, x, y, z }
    }

    /// The position that an entity has before its file names one.
    pub fn origin() -> (coordinate: Self)
        ensures
            coordinate@ == CoordinateData::origin(),
    {
        let x = "0".to_owned();
        let y = "0".to_owned();
        proof {
            reveal_strlit("0");
            assert(x@ =~= seq!['0']);
            assert(y@ =~= seq!['0']);
        }
        Self { coordinate_type: CoordinateType::LV95, x, y, z: 0 }
    }

    /// The reference system.
    pub fn coordinate_type(&self) -> (value: CoordinateType)
        ensures
            value == self@.coordinate_type,
    {
        self.coordinate_type
    }

    /// The easting in the national grid.
    pub fn easting(&self) -> (value: &String)
        requires
            self@.coordinate_type == CoordinateType::LV95,
        ensures
            value@ == self@.x,
    {
        &self.x
    }

    /// The northing in the national grid.
    pub fn northing(&self) -> (value: &String)
        requires
            self@.coordinate_type == CoordinateType::LV95,
        ensures
            value@ == self@.y,
    {
        &self.y
    }

    /// The latitude on the globe.
    pub fn latitude(&self) -> (value: &String)
        requires
            self@.coordinate_type == CoordinateType::WGS84,
        ensures
            value@ == self@.x,
    {
        &self.x
    }

    /// The longitude on the globe.
    pub fn longitude(&self) -> (value: &String)
        requires
            self@.coordinate_type == CoordinateType::WGS84,
        ensures
            value@ == self@.y,
    {
        &self.y
    }

    /// The height in metres.
    pub fn altitude(&self) -> (value: i16)
        ensures
            value == self@.z,
    {
        self.z
    }
}

/// An offer or a restriction that journeys refer to by its designation.
#[derive(Debug)]
pub struct Attribute {
    id: i32,
    designation: String,
    stop_scope: i16,
    main_sorting_priority: i16,
    secondary_sorting_priority: i16,
    description: Translations,
}

/// What a [`Attribute`] holds, as mathematics.
pub ghost struct AttributeData {
    pub id: i32,
    pub designation: Seq<char>,
    pub stop_scope: i16,
    pub main_sorting_priority: i16,
    pub secondary_sorting_priority: i16,
    pub description: TranslatedText,
}

impl View for Attribute {
    type V = AttributeData;

    closed spec fn view(&self) -> AttributeData {
        AttributeData {
            id: self.id,
            designation: self.designation@,
            stop_scope: self.stop_scope,
            main_sorting_priority: self.main_sorting_priority,
            secondary_sorting_priority: self.secondary_sorting_priority,
            description: self.description@,
        }
    }
}

impl Attribute {
    pub fn new(
        id: i32,
        designation: String,
        stop_scope: i16,
        main_sorting_priority: i16,
        secondary_sorting_priority: i16,
    ) -> (entity: Self)
        ensures
            entity@ == (AttributeData {
                id: id,
                designation: designation@,
                stop_scope: stop_scope,
                main_sorting_priority: main_sorting_priority,
                secondary_sorting_priority: secondary_sorting_priority,
                description: TranslatedText::none(),
            }),
    {
        Self {
            id,
            designation,
            stop_scope,
            main_sorting_priority,
            secondary_sorting_priority,
            description: Translations::new(),
        }
    }

    /// The surrogate identifier.
    pub fn id(&self) -> (value: i32)
        ensures
            value == self@.id,
    {
        self.id
    }

    /// The legacy key.
    pub fn designation(&self) -> (value: &String)
        ensures
            value@ == self@.designation,
    {
        &self.designation
    }

    /// The scope within a journey.
    pub fn stop_scope(&self) -> (value: i16)
        ensures
            value == self@.stop_scope,
    {
        self.stop_scope
    }

    /// The first sorting key.
    pub fn main_sorting_priority(&self) -> (value: i16)
        ensures
            value == self@.main_sorting_priority,
    {
        self.main_sorting_priority
    }

    /// The second sorting key.
    pub fn secondary_sorting_priority(&self) -> (value: i16)
        ensures
            value == self@.secondary_sorting_priority,
    {
        self.secondary_sorting_priority
    }

    /// The description in each language.
    pub fn description(&self) -> (value: &Translations)
        ensures
            value@ == self@.description,
    {
        &self.description
    }

    pub fn set_description(&mut self, language: Language, value: &str)
        ensures
            final(self)@ == (AttributeData {
                description: old(self)@.description.with(language, value@),
                ..old(self)@
            }),
    {
        self.description.set(language, value.to_owned());
    }

}

/// A direction: where a journey is headed.
#[derive(Debug)]
pub struct Direction {
    id: i32,
    name: String,
}

/// What a [`Direction`] holds, as mathematics.
pub ghost struct DirectionData {
    pub id: i32,
    pub name: Seq<char>,
}

impl View for Direction {
    type V = DirectionData;

    closed spec fn view(&self) -> DirectionData {
        DirectionData {
            id: self.id,
            name: self.name@,
        }
    }
}

impl Direction {
    pub fn new(id: i32, name: String) -> (entity: Self)
        ensures
            entity@ == (DirectionData {
                id: id,
                name: name@,
            }),
    {
        Self {
            id,
            name,
        }
    }

    /// The identifier, read from the legacy key.
    pub fn id(&self) -> (value: i32)
        ensures
            value == self@.id,
    {
        self.id
    }

    /// The name of the last stop.
    pub fn name(&self) -> (value: &String)
        ensures
            value@ == self@.name,
    {
        &self.name
    }

}

/// The time needed to change between two administrations.
#[derive(Debug)]
pub struct ExchangeTimeAdministration {
    id: i32,
    stop_id: Option<i32>,
    administration_1: String,
    administration_2: String,
    duration: i16,
}

/// What a [`ExchangeTimeAdministration`] holds, as mathematics.
pub ghost struct ExchangeTimeAdministrationData {
    pub id: i32,
    pub stop_id: Option<i32>,
    pub administration_1: Seq<char>,
    pub administration_2: Seq<char>,
    pub duration: i16,
}

impl View for ExchangeTimeAdministration {
    type V = ExchangeTimeAdministrationData;

    closed spec fn view(&self) -> ExchangeTimeAdministrationData {
        ExchangeTimeAdministrationData {
            id: self.id,
            stop_id: self.stop_id,
            administration_1: self.administration_1@,
            administration_2: self.administration_2@,
            duration: self.duration,
        }
    }
}

impl ExchangeTimeAdministration {
    pub fn new(
        id: i32,
        stop_id: Option<i32>,
        administration_1: String,
        administration_2: String,
        duration: i16,
    ) -> (entity: Self)
        ensures
            entity@ == (ExchangeTimeAdministrationData {
                id: id,
                stop_id: stop_id,
                administration_1: administration_1@,
                administration_2: administration_2@,
                duration: duration,
            }),
    {
        Self {
            id,
            stop_id,
            administration_1,
            administration_2,
            duration,
        }
    }

    /// The surrogate identifier.
    pub fn id(&self) -> (value: i32)
        ensures
            value == self@.id,
    {
        self.id
    }

    /// The stop that the time holds for; absent where it holds for all.
    pub fn stop_id(&self) -> (value: Option<i32>)
        ensures
            value == self@.stop_id,
    {
        self.stop_id
    }

    /// The administration to change from.
    pub fn administration_1(&self) -> (value: &String)
        ensures
            value@ == self@.administration_1,
    {
        &self.administration_1
    }

    /// The administration to change to.
    pub fn administration_2(&self) -> (value: &String)
        ensures
            value@ == self@.administration_2,
    {
        &self.administration_2
    }

    /// The minutes needed.
    pub fn duration(&self) -> (value: i16)
        ensures
            value == self@.duration,
    {
        self.duration
    }

}

/// A public holiday.
#[derive(Debug)]
pub struct Holiday {
    id: i32,
    date: Date,
    name: Translations,
}

/// What a [`Holiday`] holds, as mathematics.
pub ghost struct HolidayData {
    pub id: i32,
    pub date: Date,
    pub name: TranslatedText,
}

impl View for Holiday {
    type V = HolidayData;

    closed spec fn view(&self) -> HolidayData {
        HolidayData {
            id: self.id,
            date: self.date,
            name: self.name@,
        }
    }
}

impl Holiday {
    pub fn new(id: i32, date: Date, name: Translations) -> (entity: Self)
        ensures
            entity@ == (HolidayData {
                id: id,
                date: date,
                name: name@,
            }),
    {
        Self {
            id,
            date,
            name,
        }
    }

    /// The surrogate identifier.
    pub fn id(&self) -> (value: i32)
        ensures
            value == self@.id,
    {
        self.id
    }

    /// The day.
    pub fn date(&self) -> (value: Date)
        ensures
            value == self@.date,
    {
        self.date
    }

    /// The name in each language.
    pub fn name(&self) -> (value: &Translations)
        ensures
            value@ == self@.name,
    {
        &self.name
    }

}

/// A text that other records refer to by its number.
#[derive(Debug)]
pub struct InformationText {
    id: i32,
    content: Translations,
}

/// What a [`InformationText`] holds, as mathematics.
pub ghost struct InformationTextData {
    pub id: i32,
    pub content: TranslatedText,
}

impl View for InformationText {
    type V = InformationTextData;

    closed spec fn view(&self) -> InformationTextData {
        InformationTextData {
            id: self.id,
            content: self.content@,
        }
    }
}

impl InformationText {
    pub fn new(id: i32) -> (entity: Self)
        ensures
            entity@ == (InformationTextData {
                id: id,
                content: TranslatedText::none(),
            }),
    {
        Self {
            id,
            content: Translations::new(),
        }
    }

    /// The number of the text.
    pub fn id(&self) -> (value: i32)
        ensures
            value == self@.id,
    {
        self.id
    }

    /// The text in each language.
    pub fn content(&self) -> (value: &Translations)
        ensures
            value@ == self@.content,
    {
        &self.content
    }

    pub fn set_content(&mut self, language: Language, value: &str)
        ensures
            final(self)@ == (InformationTextData {
                content: old(self)@.content.with(language, value@),
                ..old(self)@
            }),
    {
        self.content.set(language, value.to_owned());
    }

}

/// A line with its names and colours.
#[derive(Debug)]
pub struct Line {
    id: i32,
    name: String,
    short_name: String,
    long_name: String,
    text_color: Color,
    background_color: Color,
}

/// What a [`Line`] holds, as mathematics.
pub ghost struct LineData {
    pub id: i32,
    pub name: Seq<char>,
    pub short_name: Seq<char>,
    pub long_name: Seq<char>,
    pub text_color: Color,
    pub background_color: Color,
}

impl View for Line {
    type V = LineData;

    closed spec fn view(&self) -> LineData {
        LineData {
            id: self.id,
            name: self.name@,
            short_name: self.short_name@,
            long_name: self.long_name@,
            text_color: self.text_color,
            background_color: self.background_color,
        }
    }
}

impl Line {
    pub fn new(id: i32, name: String) -> (entity: Self)
        ensures
            entity@ == (LineData {
                id: id,
                name: name@,
                short_name: Seq::empty(),
                long_name: Seq::empty(),
                text_color: Color { r: 0, g: 0, b: 0 },
                background_color: Color { r: 0, g: 0, b: 0 },
            }),
    {
        Self {
            id,
            name,
            short_name: String::new(),
            long_name: String::new(),
            text_color: Color::black(),
            background_color: Color::black(),
        }
    }

    /// The number of the line.
    pub fn id(&self) -> (value: i32)
        ensures
            value == self@.id,
    {
        self.id
    }

    /// The name.
    pub fn name(&self) -> (value: &String)
        ensures
            value@ == self@.name,
    {
        &self.name
    }

    /// The short name.
    pub fn short_name(&self) -> (value: &String)
        ensures
            value@ == self@.short_name,
    {
        &self.short_name
    }

    /// The long name.
    pub fn long_name(&self) -> (value: &String)
        ensures
            value@ == self@.long_name,
    {
        &self.long_name
    }

    /// The colour of the text.
    pub fn text_color(&self) -> (value: Color)
        ensures
            value == self@.text_color,
    {
        self.text_color
    }

    /// The colour of the background.
    pub fn background_color(&self) -> (value: Color)
        ensures
            value == self@.background_color,
    {
        self.background_color
    }

    pub fn set_short_name(&mut self, short_name: String)
        ensures
            final(self)@ == (LineData { short_name: short_name@, ..old(self)@ }),
    {
        self.short_name = short_name;
    }

    pub fn set_long_name(&mut self, long_name: String)
        ensures
            final(self)@ == (LineData { long_name: long_name@, ..old(self)@ }),
    {
        self.long_name = long_name;
    }

    pub fn set_text_color(&mut self, text_color: Color)
        ensures
            final(self)@ == (LineData { text_color: text_color, ..old(self)@ }),
    {
        self.text_color = text_color;
    }

    pub fn set_background_color(&mut self, background_color: Color)
        ensures
            final(self)@ == (LineData { background_color: background_color, ..old(self)@ }),
    {
        self.background_color = background_color;
    }

}

/// The platform that a journey uses at a stop.
#[derive(Debug)]
pub struct JourneyPlatform {
    journey_id: i32,
    platform_id: i64,
    unknown1: String,
    hour: Option<i16>,
    bit_field_id: Option<i32>,
}

/// What a [`JourneyPlatform`] holds, as mathematics.
pub ghost struct JourneyPlatformData {
    pub journey_id: i32,
    pub platform_id: i64,
    pub unknown1: Seq<char>,
    pub hour: Option<i16>,
    pub bit_field_id: Option<i32>,
}

impl View for JourneyPlatform {
    type V = JourneyPlatformData;

    closed spec fn view(&self) -> JourneyPlatformData {
        JourneyPlatformData {
            journey_id: self.journey_id,
            platform_id: self.platform_id,
            unknown1: self.unknown1@,
            hour: self.hour,
            bit_field_id: self.bit_field_id,
        }
    }
}

impl JourneyPlatform {
    pub fn new(
        journey_id: i32,
        platform_id: i64,
        unknown1: String,
        hour: Option<i16>,
        bit_field_id: Option<i32>,
    ) -> (entity: Self)
        ensures
            entity@ == (JourneyPlatformData {
                journey_id: journey_id,
                platform_id: platform_id,
                unknown1: unknown1@,
                hour: hour,
                bit_field_id: bit_field_id,
            }),
    {
        Self {
            journey_id,
            platform_id,
            unknown1,
            hour,
            bit_field_id,
        }
    }

    /// The number of the journey.
    pub fn journey_id(&self) -> (value: i32)
        ensures
            value == self@.journey_id,
    {
        self.journey_id
    }

    /// The identifier of the platform.
    pub fn platform_id(&self) -> (value: i64)
        ensures
            value == self@.platform_id,
    {
        self.platform_id
    }

    /// The administration of the journey.
    pub fn unknown1(&self) -> (value: &String)
        ensures
            value@ == self@.unknown1,
    {
        &self.unknown1
    }

    /// The time of day, as hours times a hundred plus minutes.
    pub fn hour(&self) -> (value: &Option<i16>)
        ensures
            *value == self@.hour,
    {
        &self.hour
    }

    /// The days on which this holds.
    pub fn bit_field_id(&self) -> (value: &Option<i32>)
        ensures
            *value == self@.bit_field_id,
    {
        &self.bit_field_id
    }

}

/// A platform of a stop.
#[derive(Debug)]
pub struct Platform {
    id: i64,
    number: String,
    sectors: Option<String>,
    sloid: String,
    lv95_coordinate: Coordinate,
    wgs84_coordinate: Coordinate,
}

/// What a [`Platform`] holds, as mathematics.
pub ghost struct PlatformData {
    pub id: i64,
    pub number: Seq<char>,
    pub sectors: Option<Seq<char>>,
    pub sloid: Seq<char>,
    pub lv95_coordinate: CoordinateData,
    pub wgs84_coordinate: CoordinateData,
}

impl View for Platform {
    type V = PlatformData;

    closed spec fn view(&self) -> PlatformData {
        PlatformData {
            id: self.id,
            number: self.number@,
            sectors: optional_text(self.sectors),
            sloid: self.sloid@,
            lv95_coordinate: self.lv95_coordinate@,
            wgs84_coordinate: self.wgs84_coordinate@,
        }
    }
}

impl Platform {
    pub fn new(id: i64, number: String, sectors: Option<String>) -> (entity: Self)
        ensures
            entity@ == (PlatformData {
                id: id,
                number: number@,
                sectors: optional_text(sectors),
                sloid: Seq::empty(),
                lv95_coordinate: CoordinateData::origin(),
                wgs84_coordinate: CoordinateData::origin(),
            }),
    {
        Self {
            id,
            number,
            sectors,
            sloid: String::new(),
            lv95_coordinate: Coordinate::origin(),
            wgs84_coordinate: Coordinate::origin(),
        }
    }

    /// The identifier.
    pub fn id(&self) -> (value: i64)
        ensures
            value == self@.id,
    {
        self.id
    }

    /// The code shown to passengers.
    pub fn number(&self) -> (value: &String)
        ensures
            value@ == self@.number,
    {
        &self.number
    }

    /// The sectors, where the platform has any.
    pub fn sectors(&self) -> (value: &Option<String>)
        ensures
            optional_text(*value) == self@.sectors,
    {
        &self.sectors
    }

    /// The location identifier.
    pub fn sloid(&self) -> (value: &String)
        ensures
            value@ == self@.sloid,
    {
        &self.sloid
    }

    /// The position in the national grid.
    pub fn lv95_coordinate(&self) -> (value: &Coordinate)
        ensures
            value@ == self@.lv95_coordinate,
    {
        &self.lv95_coordinate
    }

    /// The position on the globe.
    pub fn wgs84_coordinate(&self) -> (value: &Coordinate)
        ensures
            value@ == self@.wgs84_coordinate,
    {
        &self.wgs84_coordinate
    }

    pub fn set_sloid(&mut self, sloid: String)
        ensures
            final(self)@ == (PlatformData { sloid: sloid@, ..old(self)@ }),
    {
        self.sloid = sloid;
    }

    pub fn set_lv95_coordinate(&mut self, lv95_coordinate: Coordinate)
        ensures
            final(self)@ == (PlatformData { lv95_coordinate: lv95_coordinate@, ..old(self)@ }),
    {
        self.lv95_coordinate = lv95_coordinate;
    }

    pub fn set_wgs84_coordinate(&mut self, wgs84_coordinate: Coordinate)
        ensures
            final(self)@ == (PlatformData { wgs84_coordinate: wgs84_coordinate@, ..old(self)@ }),
    {
        self.wgs84_coordinate = wgs84_coordinate;
    }

    /// The identifier of the platform with the given index at the given stop:
    /// the stop number in the upper half, the index added to it.
    pub fn create_id(stop_id: i32, pindex: i32) -> (id: i64)
        requires
            i64::MIN <= stop_id * 0x1_0000_0000 + pindex,
        ensures
            id == stop_id * 0x1_0000_0000 + pindex,
    {
        let upper: i64 = stop_id as i64 * 0x1_0000_0000;
        upper + pindex as i64
    }

}

/// A stop with what the stop files say of it.
#[derive(Debug)]
pub struct Stop {
    id: i32,
    name: String,
    long_name: Option<String>,
    abbreviation: Option<String>,
    synonyms: Option<Vec<String>>,
    lv95_coordinate: Option<Coordinate>,
    wgs84_coordinate: Option<Coordinate>,
    exchange_priority: i16,
    exchange_time: Option<(i16, i16)>,
    restrictions: i16,
    sloid: String,
    boarding_areas: Vec<String>,
}

/// What a [`Stop`] holds, as mathematics.
pub ghost struct StopData {
    pub id: i32,
    pub name: Seq<char>,
    pub long_name: Option<Seq<char>>,
    pub abbreviation: Option<Seq<char>>,
    pub synonyms: Option<Seq<Seq<char>>>,
    pub lv95_coordinate: Option<CoordinateData>,
    pub wgs84_coordinate: Option<CoordinateData>,
    pub exchange_priority: i16,
    pub exchange_time: Option<(i16, i16)>,
    pub restrictions: i16,
    pub sloid: Seq<char>,
    pub boarding_areas: Seq<Seq<char>>,
}

impl View for Stop {
    type V = StopData;

    closed spec fn view(&self) -> StopData {
        StopData {
            id: self.id,
            name: self.name@,
            long_name: optional_text(self.long_name),
            abbreviation: optional_text(self.abbreviation),
            synonyms: optional_texts(self.synonyms),
            lv95_coordinate: optional_coordinate(self.lv95_coordinate),
            wgs84_coordinate: optional_coordinate(self.wgs84_coordinate),
            exchange_priority: self.exchange_priority,
            exchange_time: self.exchange_time,
            restrictions: self.restrictions,
            sloid: self.sloid@,
            boarding_areas: texts(self.boarding_areas@),
        }
    }
}

impl Stop {
    pub fn new(
        id: i32,
        name: String,
        long_name: Option<String>,
        abbreviation: Option<String>,
        synonyms: Option<Vec<String>>,
    ) -> (entity: Self)
        ensures
            entity@ == (StopData {
                id: id,
                name: name@,
                long_name: optional_text(long_name),
                abbreviation: optional_text(abbreviation),
                synonyms: optional_texts(synonyms),
                lv95_coordinate: None,
                wgs84_coordinate: None,
                exchange_priority: 8,
                exchange_time: None,
                restrictions: 0,
                sloid: Seq::empty(),
                boarding_areas: Seq::empty(),
            }),
    {
        let entity = Self {
            id,
            name,
            long_name,
            abbreviation,
            synonyms,
            lv95_coordinate: None,
            wgs84_coordinate: None,
            exchange_priority: 8,
            exchange_time: None,
            restrictions: 0,
            sloid: String::new(),
            boarding_areas: Vec::new(),
        };
        assert(texts(entity.boarding_areas@) =~= Seq::empty());
        entity
    }

    /// The number of the stop.
    pub fn id(&self) -> (value: i32)
        ensures
            value == self@.id,
    {
        self.id
    }

    /// The name.
    pub fn name(&self) -> (value: &String)
        ensures
            value@ == self@.name,
    {
        &self.name
    }

    /// The long name.
    pub fn long_name(&self) -> (value: &Option<String>)
        ensures
            optional_text(*value) == self@.long_name,
    {
        &self.long_name
    }

    /// The abbreviation.
    pub fn abbreviation(&self) -> (value: &Option<String>)
        ensures
            optional_text(*value) == self@.abbreviation,
    {
        &self.abbreviation
    }

    /// Other names.
    pub fn synonyms(&self) -> (value: &Option<Vec<String>>)
        ensures
            optional_texts(*value) == self@.synonyms,
    {
        &self.synonyms
    }

    /// The position in the national grid.
    pub fn lv95_coordinate(&self) -> (value: &Option<Coordinate>)
        ensures
            optional_coordinate(*value) == self@.lv95_coordinate,
    {
        &self.lv95_coordinate
    }

    /// The position on the globe.
    pub fn wgs84_coordinate(&self) -> (value: &Option<Coordinate>)
        ensures
            optional_coordinate(*value) == self@.wgs84_coordinate,
    {
        &self.wgs84_coordinate
    }

    /// The priority for changing here.
    pub fn exchange_priority(&self) -> (value: i16)
        ensures
            value == self@.exchange_priority,
    {
        self.exchange_priority
    }

    /// The minutes needed to change, between fast trains and otherwise.
    pub fn exchange_time(&self) -> (value: Option<(i16, i16)>)
        ensures
            value == self@.exchange_time,
    {
        self.exchange_time
    }

    /// The restrictions on changing here.
    pub fn restrictions(&self) -> (value: i16)
        ensures
            value == self@.restrictions,
    {
        self.restrictions
    }

    /// The location identifier.
    pub fn sloid(&self) -> (value: &String)
        ensures
            value@ == self@.sloid,
    {
        &self.sloid
    }

    /// The location identifiers of the boarding areas.
    pub fn boarding_areas(&self) -> (value: &Vec<String>)
        ensures
            texts(value@) == self@.boarding_areas,
    {
        &self.boarding_areas
    }

    pub fn set_exchange_priority(&mut self, exchange_priority: i16)
        ensures
            final(self)@ == (StopData { exchange_priority: exchange_priority, ..old(self)@ }),
    {
        self.exchange_priority = exchange_priority;
    }

    pub fn set_exchange_time(&mut self, exchange_time: Option<(i16, i16)>)
        ensures
            final(self)@ == (StopData { exchange_time: exchange_time, ..old(self)@ }),
    {
        self.exchange_time = exchange_time;
    }

    pub fn set_restrictions(&mut self, restrictions: i16)
        ensures
            final(self)@ == (StopData { restrictions: restrictions, ..old(self)@ }),
    {
        self.restrictions = restrictions;
    }

    pub fn set_sloid(&mut self, sloid: String)
        ensures
            final(self)@ == (StopData { sloid: sloid@, ..old(self)@ }),
    {
        self.sloid = sloid;
    }

    pub fn set_lv95_coordinate(&mut self, coordinate: Coordinate)
        ensures
            final(self)@ == (StopData { lv95_coordinate: Some(coordinate@), ..old(self)@ }),
    {
        self.lv95_coordinate = Some(coordinate);
    }

    pub fn set_wgs84_coordinate(&mut self, coordinate: Coordinate)
        ensures
            final(self)@ == (StopData { wgs84_coordinate: Some(coordinate@), ..old(self)@ }),
    {
        self.wgs84_coordinate = Some(coordinate);
    }

    pub fn add_boarding_area(&mut self, sloid: String)
        ensures
            final(self)@ == (StopData {
                boarding_areas: old(self)@.boarding_areas.push(sloid@),
                ..old(self)@
            }),
    {
        let ghost before = self.boarding_areas@;
        self.boarding_areas.push(sloid);
        assert(texts(self.boarding_areas@) =~= texts(before).push(sloid@));
    }

}

/// The period that a timetable covers. Both days belong to it.
#[derive(Debug)]
pub struct TimetableKeyData {
    start_date: Date,
    end_date: Date,
    metadata: Vec<String>,
}

/// What a [`TimetableKeyData`] holds, as mathematics.
pub ghost struct TimetableKeyDataData {
    pub start_date: Date,
    pub end_date: Date,
    pub metadata: Seq<Seq<char>>,
}

impl View for TimetableKeyData {
    type V = TimetableKeyDataData;

    closed spec fn view(&self) -> TimetableKeyDataData {
        TimetableKeyDataData {
            start_date: self.start_date,
            end_date: self.end_date,
            metadata: texts(self.metadata@),
        }
    }
}

impl TimetableKeyData {
    pub fn new(start_date: Date, end_date: Date, metadata: Vec<String>) -> (entity: Self)
        ensures
            entity@ == (TimetableKeyDataData {
                start_date: start_date,
                end_date: end_date,
                metadata: texts(metadata@),
            }),
    {
        Self {
            start_date,
            end_date,
            metadata,
        }
    }

    /// The first day.
    pub fn start_date(&self) -> (value: &Date)
        ensures
            *value == self@.start_date,
    {
        &self.start_date
    }

    /// The last day.
    pub fn end_date(&self) -> (value: &Date)
        ensures
            *value == self@.end_date,
    {
        &self.end_date
    }

    /// What else the file says of the timetable.
    pub fn metadata(&self) -> (value: &Vec<String>)
        ensures
            texts(value@) == self@.metadata,
    {
        &self.metadata
    }

}

/// One fact about a timetable, under its key.
#[derive(Debug)]
pub struct TimetableMetadataEntry {
    id: i32,
    key: String,
    value: String,
}

/// What a [`TimetableMetadataEntry`] holds, as mathematics.
pub ghost struct TimetableMetadataEntryData {
    pub id: i32,
    pub key: Seq<char>,
    pub value: Seq<char>,
}

impl View for TimetableMetadataEntry {
    type V = TimetableMetadataEntryData;

    closed spec fn view(&self) -> TimetableMetadataEntryData {
        TimetableMetadataEntryData {
            id: self.id,
            key: self.key@,
            value: self.value@,
        }
    }
}

impl TimetableMetadataEntry {
    pub fn new(id: i32, key: String, value: String) -> (entity: Self)
        ensures
            entity@ == (TimetableMetadataEntryData {
                id: id,
                key: key@,
                value: value@,
            }),
    {
        Self {
            id,
            key,
            value,
        }
    }

    /// The surrogate identifier.
    pub fn id(&self) -> (value: i32)
        ensures
            value == self@.id,
    {
        self.id
    }

    /// The name of the fact.
    pub fn key(&self) -> (value: &String)
        ensures
            value@ == self@.key,
    {
        &self.key
    }

    /// The fact.
    pub fn value(&self) -> (value: &String)
        ensures
            value@ == self@.value,
    {
        &self.value
    }

}

/// A transport company and its administrations.
#[derive(Debug)]
pub struct TransportCompany {
    id: i32,
    short_name: Translations,
    long_name: Translations,
    full_name: Translations,
    administrations: Vec<String>,
}

/// What a [`TransportCompany`] holds, as mathematics.
pub ghost struct TransportCompanyData {
    pub id: i32,
    pub short_name: TranslatedText,
    pub long_name: TranslatedText,
    pub full_name: TranslatedText,
    pub administrations: Seq<Seq<char>>,
}

impl View for TransportCompany {
    type V = TransportCompanyData;

    closed spec fn view(&self) -> TransportCompanyData {
        TransportCompanyData {
            id: self.id,
            short_name: self.short_name@,
            long_name: self.long_name@,
            full_name: self.full_name@,
            administrations: texts(self.administrations@),
        }
    }
}

impl TransportCompany {
    pub fn new(id: i32, administrations: Vec<String>) -> (entity: Self)
        ensures
            entity@ == (TransportCompanyData {
                id: id,
                short_name: TranslatedText::none(),
                long_name: TranslatedText::none(),
                full_name: TranslatedText::none(),
                administrations: texts(administrations@),
            }),
    {
        Self {
            id,
            short_name: Translations::new(),
            long_name: Translations::new(),
            full_name: Translations::new(),
            administrations,
        }
    }

    /// The number of the company.
    pub fn id(&self) -> (value: i32)
        ensures
            value == self@.id,
    {
        self.id
    }

    /// The short name in each language.
    pub fn short_name(&self) -> (value: &Translations)
        ensures
            value@ == self@.short_name,
    {
        &self.short_name
    }

    /// The long name in each language.
    pub fn long_name(&self) -> (value: &Translations)
        ensures
            value@ == self@.long_name,
    {
        &self.long_name
    }

    /// The full name in each language.
    pub fn full_name(&self) -> (value: &Translations)
        ensures
            value@ == self@.full_name,
    {
        &self.full_name
    }

    /// The codes of the administrations.
    pub fn administrations(&self) -> (value: &Vec<String>)
        ensures
            texts(value@) == self@.administrations,
    {
        &self.administrations
    }

    pub fn set_short_name(&mut self, language: Language, value: &str)
        ensures
            final(self)@ == (TransportCompanyData {
                short_name: old(self)@.short_name.with(language, value@),
                ..old(self)@
            }),
    {
        self.short_name.set(language, value.to_owned());
    }

    pub fn set_long_name(&mut self, language: Language, value: &str)
        ensures
            final(self)@ == (TransportCompanyData {
                long_name: old(self)@.long_name.with(language, value@),
                ..old(self)@
            }),
    {
        self.long_name.set(language, value.to_owned());
    }

    pub fn set_full_name(&mut self, language: Language, value: &str)
        ensures
            final(self)@ == (TransportCompanyData {
                full_name: old(self)@.full_name.with(language, value@),
                ..old(self)@
            }),
    {
        self.full_name.set(language, value.to_owned());
    }

}

/// A kind of transport.
#[derive(Debug)]
pub struct TransportType {
    id: i32,
    designation: String,
    product_class_id: i16,
    tarrif_group: String,
    output_control: i16,
    short_name: String,
    surchage: i16,
    flag: String,
    product_class_name: Translations,
    category_name: Translations,
}

/// What a [`TransportType`] holds, as mathematics.
pub ghost struct TransportTypeData {
    pub id: i32,
    pub designation: Seq<char>,
    pub product_class_id: i16,
    pub tarrif_group: Seq<char>,
    pub output_control: i16,
    pub short_name: Seq<char>,
    pub surchage: i16,
    pub flag: Seq<char>,
    pub product_class_name: TranslatedText,
    pub category_name: TranslatedText,
}

impl View for TransportType {
    type V = TransportTypeData;

    closed spec fn view(&self) -> TransportTypeData {
        TransportTypeData {
            id: self.id,
            designation: self.designation@,
            product_class_id: self.product_class_id,
            tarrif_group: self.tarrif_group@,
            output_control: self.output_control,
            short_name: self.short_name@,
            surchage: self.surchage,
            flag: self.flag@,
            product_class_name: self.product_class_name@,
            category_name: self.category_name@,
        }
    }
}

impl TransportType {
    pub fn new(
        id: i32,
        designation: String,
        product_class_id: i16,
        tarrif_group: String,
        output_control: i16,
        short_name: String,
        surchage: i16,
        flag: String,
    ) -> (entity: Self)
        ensures
            entity@ == (TransportTypeData {
                id: id,
                designation: designation@,
                product_class_id: product_class_id,
                tarrif_group: tarrif_group@,
                output_control: output_control,
                short_name: short_name@,
                surchage: surchage,
                flag: flag@,
                product_class_name: TranslatedText::none(),
                category_name: TranslatedText::none(),
            }),
    {
        Self {
            id,
            designation,
            product_class_id,
            tarrif_group,
            output_control,
            short_name,
            surchage,
            flag,
            product_class_name: Translations::new(),
            category_name: Translations::new(),
        }
    }

    /// The surrogate identifier.
    pub fn id(&self) -> (value: i32)
        ensures
            value == self@.id,
    {
        self.id
    }

    /// The legacy key.
    pub fn designation(&self) -> (value: &String)
        ensures
            value@ == self@.designation,
    {
        &self.designation
    }

    /// The product class.
    pub fn product_class_id(&self) -> (value: i16)
        ensures
            value == self@.product_class_id,
    {
        self.product_class_id
    }

    /// The tariff group.
    pub fn tarrif_group(&self) -> (value: &String)
        ensures
            value@ == self@.tarrif_group,
    {
        &self.tarrif_group
    }

    /// How the kind is shown.
    pub fn output_control(&self) -> (value: i16)
        ensures
            value == self@.output_control,
    {
        self.output_control
    }

    /// The short name.
    pub fn short_name(&self) -> (value: &String)
        ensures
            value@ == self@.short_name,
    {
        &self.short_name
    }

    /// The surcharge.
    pub fn surchage(&self) -> (value: i16)
        ensures
            value == self@.surchage,
    {
        self.surchage
    }

    /// The flag.
    pub fn flag(&self) -> (value: &String)
        ensures
            value@ == self@.flag,
    {
        &self.flag
    }

    /// The name of the product class in each language.
    pub fn product_class_name(&self) -> (value: &Translations)
        ensures
            value@ == self@.product_class_name,
    {
        &self.product_class_name
    }

    /// The name of the category in each language.
    pub fn category_name(&self) -> (value: &Translations)
        ensures
            value@ == self@.category_name,
    {
        &self.category_name
    }

    pub fn set_product_class_name(&mut self, language: Language, value: &str)
        ensures
            final(self)@ == (TransportTypeData {
                product_class_name: old(self)@.product_class_name.with(language, value@),
                ..old(self)@
            }),
    {
        self.product_class_name.set(language, value.to_owned());
    }

    pub fn set_category_name(&mut self, language: Language, value: &str)
        ensures
            final(self)@ == (TransportTypeData {
                category_name: old(self)@.category_name.with(language, value@),
                ..old(self)@
            }),
    {
        self.category_name.set(language, value.to_owned());
    }

}

/// A walk between two stops.
#[derive(Debug)]
pub struct StopConnection {
    id: i32,
    stop_id_1: i32,
    stop_id_2: i32,
    duration: i16,
    attribute: i32,
}

/// What a [`StopConnection`] holds, as mathematics.
pub ghost struct StopConnectionData {
    pub id: i32,
    pub stop_id_1: i32,
    pub stop_id_2: i32,
    pub duration: i16,
    pub attribute: i32,
}

impl View for StopConnection {
    type V = StopConnectionData;

    closed spec fn view(&self) -> StopConnectionData {
        StopConnectionData {
            id: self.id,
            stop_id_1: self.stop_id_1,
            stop_id_2: self.stop_id_2,
            duration: self.duration,
            attribute: self.attribute,
        }
    }
}

impl StopConnection {
    pub fn new(id: i32, stop_id_1: i32, stop_id_2: i32, duration: i16) -> (entity: Self)
        ensures
            entity@ == (StopConnectionData {
                id: id,
                stop_id_1: stop_id_1,
                stop_id_2: stop_id_2,
                duration: duration,
                attribute: 0,
            }),
    {
        Self {
            id,
            stop_id_1,
            stop_id_2,
            duration,
            attribute: 0,
        }
    }

    /// The surrogate identifier.
    pub fn id(&self) -> (value: i32)
        ensures
            value == self@.id,
    {
        self.id
    }

    /// The stop to walk from.
    pub fn stop_id_1(&self) -> (value: i32)
        ensures
            value == self@.stop_id_1,
    {
        self.stop_id_1
    }

    /// The stop to walk to.
    pub fn stop_id_2(&self) -> (value: i32)
        ensures
            value == self@.stop_id_2,
    {
        self.stop_id_2
    }

    /// The minutes needed.
    pub fn duration(&self) -> (value: i16)
        ensures
            value == self@.duration,
    {
        self.duration
    }

    /// The identifier of the attribute of the walk.
    pub fn attribute(&self) -> (value: i32)
        ensures
            value == self@.attribute,
    {
        self.attribute
    }

    pub fn set_attribute(&mut self, attribute: i32)
        ensures
            final(self)@ == (StopConnectionData { attribute: attribute, ..old(self)@ }),
    {
        self.attribute = attribute;
    }

}

/// Two journeys that one vehicle serves in a row.
#[derive(Debug)]
pub struct ThroughService {
    id: i32,
    journey_1_id: (i32, String),
    journey_1_stop_id: i32,
    journey_2_id: (i32, String),
    journey_2_stop_id: i32,
    bit_field_id: i32,
}

/// What a [`ThroughService`] holds, as mathematics.
pub ghost struct ThroughServiceData {
    pub id: i32,
    pub journey_1_id: (i32, Seq<char>),
    pub journey_1_stop_id: i32,
    pub journey_2_id: (i32, Seq<char>),
    pub journey_2_stop_id: i32,
    pub bit_field_id: i32,
}

impl View for ThroughService {
    type V = ThroughServiceData;

    closed spec fn view(&self) -> ThroughServiceData {
        ThroughServiceData {
            id: self.id,
            journey_1_id: (self.journey_1_id.0, self.journey_1_id.1@),
            journey_1_stop_id: self.journey_1_stop_id,
            journey_2_id: (self.journey_2_id.0, self.journey_2_id.1@),
            journey_2_stop_id: self.journey_2_stop_id,
            bit_field_id: self.bit_field_id,
        }
    }
}

impl ThroughService {
    pub fn new(
        id: i32,
        journey_1_id: (i32, String),
        journey_1_stop_id: i32,
        journey_2_id: (i32, String),
        journey_2_stop_id: i32,
        bit_field_id: i32,
    ) -> (entity: Self)
        ensures
            entity@ == (ThroughServiceData {
                id: id,
                journey_1_id: (journey_1_id.0, journey_1_id.1@),
                journey_1_stop_id: journey_1_stop_id,
                journey_2_id: (journey_2_id.0, journey_2_id.1@),
                journey_2_stop_id: journey_2_stop_id,
                bit_field_id: bit_field_id,
            }),
    {
        Self {
            id,
            journey_1_id,
            journey_1_stop_id,
            journey_2_id,
            journey_2_stop_id,
            bit_field_id,
        }
    }

    /// The surrogate identifier.
    pub fn id(&self) -> (value: i32)
        ensures
            value == self@.id,
    {
        self.id
    }

    /// Number and administration of the first journey.
    pub fn journey_1_id(&self) -> (value: &(i32, String))
        ensures
            (value.0, value.1@) == self@.journey_1_id,
    {
        &self.journey_1_id
    }

    /// The last stop of the first journey.
    pub fn journey_1_stop_id(&self) -> (value: i32)
        ensures
            value == self@.journey_1_stop_id,
    {
        self.journey_1_stop_id
    }

    /// Number and administration of the second journey.
    pub fn journey_2_id(&self) -> (value: &(i32, String))
        ensures
            (value.0, value.1@) == self@.journey_2_id,
    {
        &self.journey_2_id
    }

    /// The first stop of the second journey.
    pub fn journey_2_stop_id(&self) -> (value: i32)
        ensures
            value == self@.journey_2_stop_id,
    {
        self.journey_2_stop_id
    }

    /// The days on which this holds.
    pub fn bit_field_id(&self) -> (value: i32)
        ensures
            value == self@.bit_field_id,
    {
        self.bit_field_id
    }

}

} // verus!
