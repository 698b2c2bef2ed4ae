//! Platforms, and the platforms that journeys use.
//!
//! The main file starts with the rows that tie a journey to a platform of a
//! stop, and goes on with the rows that describe the platforms. The files of
//! the two coordinate systems begin with the same rows of journeys; what
//! follows them gives location identifiers and coordinates of the platforms.
//!
//! The main file is read first. The bytes that its rows of journeys take are
//! added up; the two coordinate files are then read from that byte offset on,
//! which skips their rows of journeys without classifying them again.
//!
//! Files read by the decoder: GLEIS, GLEIS_LV95, GLEIS_WGS, or, from the
//! latest release on, GLEISE_LV95 and GLEISE_WGS

use vstd::prelude::*;
use vstd::string::StringExecFns;
use rustc_hash::{FxHashMap, FxHashSet};
use crate::grammar::{capture, skip, Grammar, Token};
use crate::models::{
    Coordinate,
    CoordinateData,
    CoordinateType,
    JourneyPlatform,
    JourneyPlatformData,
    Platform,
    PlatformData,
    Version,
};
use crate::parsing::file_parser::{decode, decoded_file, RecordSink};
use crate::parsing::{
    read_i32,
    read_option_i32,
    read_text,
    row,
    value_i32,
    value_option_i32,
    value_text,
    value_views,
    ExpectedType,
    Failure,
    ParseError,
    ParsedRow,
    ParsedValue,
    Record,
    RowDefinition,
    RowParser,
    RowShape,
    TypedValue,
};
use crate::text::texts;
use crate::storage::{
    entity_views,
    is_known_journey,
    journey_keys,
    lemma_views_after_insert,
    lemma_views_of_empty,
    lemma_views_of_entry,
    new_pair_table,
    new_table,
    pair_ids,
    register_pair_key,
    resolve_pair_key,
    store,
    take,
};
use crate::text::{
    cut,
    is_float_literal,
    is_float_text,
    ranges_within,
    split_on_pair,
    split_pair_ranges,
    to_chars,
    word_ranges,
    words,
};
use crate::utils::AutoIncrement;

verus! {

/// A journey at a platform.
pub const ROW_JOURNEY_PLATFORM: i32 = 1;

/// A platform.
pub const ROW_PLATFORM: i32 = 2;

/// The sectors of a platform.
pub const ROW_SECTION: i32 = 3;

/// The location identifier of a platform.
pub const ROW_SLOID: i32 = 4;

/// The coordinates of a platform.
pub const ROW_COORD: i32 = 5;

/// The shapes of row in the file, in the order in which they are tried.
pub open spec fn platform_rows(version: Version) -> Seq<RowShape> {
    if version == Version::V_5_40_41_2_0_7 {
        seq![
            RowShape {
                id: ROW_JOURNEY_PLATFORM,
                columns: seq![
                    ExpectedType::Integer32,
                    ExpectedType::Integer32,
                    ExpectedType::String,
                    ExpectedType::Integer32,
                    ExpectedType::OptionInteger32,
                    ExpectedType::OptionInteger32,
                ],
                steps: seq![
                    capture(Token::Take(7)),
                    skip(Token::Space1),
                    capture(Token::Take(6)),
                    skip(Token::Space1),
                    capture(Token::Take(6)),
                    skip(Token::Tag("#")),
                    capture(Token::Take(7)),
                    skip(Token::Space1),
                    capture(Token::OptTake(4)),
                    skip(Token::Space1),
                    capture(Token::OptTake(6)),
                ],
                whole: false,
            },
            RowShape {
                id: ROW_PLATFORM,
                columns: seq![
                    ExpectedType::Integer32,
                    ExpectedType::Integer32,
                    ExpectedType::String,
                ],
                steps: seq![
                    capture(Token::Take(7)),
                    skip(Token::Tag("#")),
                    capture(Token::Take(7)),
                    skip(Token::Tag("G")),
                    skip(Token::Space1),
                    capture(Token::Take(6)),
                ],
                whole: false,
            },
            RowShape {
                id: ROW_SECTION,
                columns: seq![
                    ExpectedType::Integer32,
                    ExpectedType::Integer32,
                    ExpectedType::String,
                ],
                steps: seq![
                    capture(Token::Take(7)),
                    skip(Token::Tag("#")),
                    capture(Token::Take(7)),
                    skip(Token::Tag("A")),
                    skip(Token::Space1),
                    capture(Token::Take(6)),
                ],
                whole: false,
            },
            RowShape {
                id: ROW_SLOID,
                columns: seq![
                    ExpectedType::Integer32,
                    ExpectedType::Integer32,
                    ExpectedType::String,
                ],
                steps: seq![
                    capture(Token::Take(7)),
                    skip(Token::Tag("#")),
                    capture(Token::Take(7)),
                    skip(Token::Tag("g A")),
                    skip(Token::Space1),
                    capture(Token::Take(6)),
                ],
                whole: false,
            },
            RowShape {
                id: ROW_COORD,
                columns: seq![
                    ExpectedType::Integer32,
                    ExpectedType::Integer32,
                    ExpectedType::String,
                ],
                steps: seq![
                    capture(Token::Take(7)),
                    skip(Token::Tag("#")),
                    capture(Token::Take(7)),
                    skip(Token::Tag("k")),
                    skip(Token::Space1),
                    capture(Token::Take(6)),
                ],
                whole: false,
            },
        ]
    }
    else {
        seq![
            RowShape {
                id: ROW_JOURNEY_PLATFORM,
                columns: seq![
                    ExpectedType::Integer32,
                    ExpectedType::Integer32,
                    ExpectedType::String,
                    ExpectedType::Integer32,
                    ExpectedType::OptionInteger32,
                    ExpectedType::OptionInteger32,
                ],
                steps: seq![
                    capture(Token::Take(7)),
                    skip(Token::Space1),
                    capture(Token::Take(6)),
                    skip(Token::Space1),
                    capture(Token::Take(6)),
                    skip(Token::Tag("#")),
                    capture(Token::Take(7)),
                    skip(Token::Space1),
                    capture(Token::OptTake(4)),
                    skip(Token::Space1),
                    capture(Token::OptTake(6)),
                ],
                whole: false,
            },
            RowShape {
                id: ROW_PLATFORM,
                columns: seq![
                    ExpectedType::Integer32,
                    ExpectedType::Integer32,
                    ExpectedType::String,
                ],
                steps: seq![
                    capture(Token::Take(7)),
                    skip(Token::Tag("#")),
                    capture(Token::Take(7)),
                    skip(Token::Tag("G")),
                    skip(Token::Space1),
                    capture(Token::Take(6)),
                ],
                whole: false,
            },
            RowShape {
                id: ROW_SLOID,
                columns: seq![
                    ExpectedType::Integer32,
                    ExpectedType::Integer32,
                    ExpectedType::String,
                ],
                steps: seq![
                    capture(Token::Take(7)),
                    skip(Token::Tag("#")),
                    capture(Token::Take(7)),
                    skip(Token::Tag("I A")),
                    skip(Token::Space1),
                    capture(Token::Take(6)),
                ],
                whole: false,
            },
            RowShape {
                id: ROW_COORD,
                columns: seq![
                    ExpectedType::Integer32,
                    ExpectedType::Integer32,
                    ExpectedType::String,
                ],
                steps: seq![
                    capture(Token::Take(7)),
                    skip(Token::Tag("#")),
                    capture(Token::Take(7)),
                    skip(Token::Tag("K")),
                    skip(Token::Space1),
                    capture(Token::Take(6)),
                ],
                whole: false,
            },
        ]
    }
}

/// The decoder of the files of platforms.
pub struct PlatformParser {
    files: Vec<String>,
    row_parser: RowParser,
}

impl PlatformParser {
    fn get_parser_1() -> (grammar: Grammar)
        ensures
            grammar.steps@ == seq![
                capture(Token::Take(7)),
                skip(Token::Space1),
                capture(Token::Take(6)),
                skip(Token::Space1),
                capture(Token::Take(6)),
                skip(Token::Tag("#")),
                capture(Token::Take(7)),
                skip(Token::Space1),
                capture(Token::OptTake(4)),
                skip(Token::Space1),
                capture(Token::OptTake(6)),
            ],
            !grammar.whole,
    {
        let steps = vec![
            capture(Token::Take(7)),
            skip(Token::Space1),
            capture(Token::Take(6)),
            skip(Token::Space1),
            capture(Token::Take(6)),
            skip(Token::Tag("#")),
            capture(Token::Take(7)),
            skip(Token::Space1),
            capture(Token::OptTake(4)),
            skip(Token::Space1),
            capture(Token::OptTake(6)),
        ];
        assert(steps@ =~= seq![
            capture(Token::Take(7)),
            skip(Token::Space1),
            capture(Token::Take(6)),
            skip(Token::Space1),
            capture(Token::Take(6)),
            skip(Token::Tag("#")),
            capture(Token::Take(7)),
            skip(Token::Space1),
            capture(Token::OptTake(4)),
            skip(Token::Space1),
            capture(Token::OptTake(6)),
        ]);
        Grammar::new(steps)
    }

    fn get_parser_2() -> (grammar: Grammar)
        ensures
            grammar.steps@ == seq![
                capture(Token::Take(7)),
                skip(Token::Tag("#")),
                capture(Token::Take(7)),
                skip(Token::Tag("G")),
                skip(Token::Space1),
                capture(Token::Take(6)),
            ],
            !grammar.whole,
    {
        let steps = vec![
            capture(Token::Take(7)),
            skip(Token::Tag("#")),
            capture(Token::Take(7)),
            skip(Token::Tag("G")),
            skip(Token::Space1),
            capture(Token::Take(6)),
        ];
        assert(steps@ =~= seq![
            capture(Token::Take(7)),
            skip(Token::Tag("#")),
            capture(Token::Take(7)),
            skip(Token::Tag("G")),
            skip(Token::Space1),
            capture(Token::Take(6)),
        ]);
        Grammar::new(steps)
    }

    fn get_parser_3() -> (grammar: Grammar)
        ensures
            grammar.steps@ == seq![
                capture(Token::Take(7)),
                skip(Token::Tag("#")),
                capture(Token::Take(7)),
                skip(Token::Tag("A")),
                skip(Token::Space1),
                capture(Token::Take(6)),
            ],
            !grammar.whole,
    {
        let steps = vec![
            capture(Token::Take(7)),
            skip(Token::Tag("#")),
            capture(Token::Take(7)),
            skip(Token::Tag("A")),
            skip(Token::Space1),
            capture(Token::Take(6)),
        ];
        assert(steps@ =~= seq![
            capture(Token::Take(7)),
            skip(Token::Tag("#")),
            capture(Token::Take(7)),
            skip(Token::Tag("A")),
            skip(Token::Space1),
            capture(Token::Take(6)),
        ]);
        Grammar::new(steps)
    }

    fn get_parser_4_1() -> (grammar: Grammar)
        ensures
            grammar.steps@ == seq![
                capture(Token::Take(7)),
                skip(Token::Tag("#")),
                capture(Token::Take(7)),
                skip(Token::Tag("g A")),
                skip(Token::Space1),
                capture(Token::Take(6)),
            ],
            !grammar.whole,
    {
        let steps = vec![
            capture(Token::Take(7)),
            skip(Token::Tag("#")),
            capture(Token::Take(7)),
            skip(Token::Tag("g A")),
            skip(Token::Space1),
            capture(Token::Take(6)),
        ];
        assert(steps@ =~= seq![
            capture(Token::Take(7)),
            skip(Token::Tag("#")),
            capture(Token::Take(7)),
            skip(Token::Tag("g A")),
            skip(Token::Space1),
            capture(Token::Take(6)),
        ]);
        Grammar::new(steps)
    }

    fn get_parser_5_1() -> (grammar: Grammar)
        ensures
            grammar.steps@ == seq![
                capture(Token::Take(7)),
                skip(Token::Tag("#")),
                capture(Token::Take(7)),
                skip(Token::Tag("k")),
                skip(Token::Space1),
                capture(Token::Take(6)),
            ],
            !grammar.whole,
    {
        let steps = vec![
            capture(Token::Take(7)),
            skip(Token::Tag("#")),
            capture(Token::Take(7)),
            skip(Token::Tag("k")),
            skip(Token::Space1),
            capture(Token::Take(6)),
        ];
        assert(steps@ =~= seq![
            capture(Token::Take(7)),
            skip(Token::Tag("#")),
            capture(Token::Take(7)),
            skip(Token::Tag("k")),
            skip(Token::Space1),
            capture(Token::Take(6)),
        ]);
        Grammar::new(steps)
    }

    fn get_parser_4_2() -> (grammar: Grammar)
        ensures
            grammar.steps@ == seq![
                capture(Token::Take(7)),
                skip(Token::Tag("#")),
                capture(Token::Take(7)),
                skip(Token::Tag("I A")),
                skip(Token::Space1),
                capture(Token::Take(6)),
            ],
            !grammar.whole,
    {
        let steps = vec![
            capture(Token::Take(7)),
            skip(Token::Tag("#")),
            capture(Token::Take(7)),
            skip(Token::Tag("I A")),
            skip(Token::Space1),
            capture(Token::Take(6)),
        ];
        assert(steps@ =~= seq![
            capture(Token::Take(7)),
            skip(Token::Tag("#")),
            capture(Token::Take(7)),
            skip(Token::Tag("I A")),
            skip(Token::Space1),
            capture(Token::Take(6)),
        ]);
        Grammar::new(steps)
    }

    fn get_parser_5_2() -> (grammar: Grammar)
        ensures
            grammar.steps@ == seq![
                capture(Token::Take(7)),
                skip(Token::Tag("#")),
                capture(Token::Take(7)),
                skip(Token::Tag("K")),
                skip(Token::Space1),
                capture(Token::Take(6)),
            ],
            !grammar.whole,
    {
        let steps = vec![
            capture(Token::Take(7)),
            skip(Token::Tag("#")),
            capture(Token::Take(7)),
            skip(Token::Tag("K")),
            skip(Token::Space1),
            capture(Token::Take(6)),
        ];
        assert(steps@ =~= seq![
            capture(Token::Take(7)),
            skip(Token::Tag("#")),
            capture(Token::Take(7)),
            skip(Token::Tag("K")),
            skip(Token::Space1),
            capture(Token::Take(6)),
        ]);
        Grammar::new(steps)
    }

    pub fn new(version: Version) -> (parser: Self)
        ensures
            parser.shapes() == platform_rows(version),
            parser.file_names() == seq!["GLEIS"@, "GLEIS_LV95"@, "GLEIS_WGS"@, "GLEISE_LV95"@, "GLEISE_WGS"@],
    {
        let row_parser = if version == Version::V_5_40_41_2_0_7 {
            let mut rows: Vec<RowDefinition> = Vec::new();
            let kinds = vec![
                ExpectedType::Integer32,
                ExpectedType::Integer32,
                ExpectedType::String,
                ExpectedType::Integer32,
                ExpectedType::OptionInteger32,
                ExpectedType::OptionInteger32,
            ];
            assert(kinds@ =~= platform_rows(version)[0].columns);
            rows.push(row(ROW_JOURNEY_PLATFORM, kinds, Self::get_parser_1()));
            let kinds = vec![
                ExpectedType::Integer32,
                ExpectedType::Integer32,
                ExpectedType::String,
            ];
            assert(kinds@ =~= platform_rows(version)[1].columns);
            rows.push(row(ROW_PLATFORM, kinds, Self::get_parser_2()));
            let kinds = vec![
                ExpectedType::Integer32,
                ExpectedType::Integer32,
                ExpectedType::String,
            ];
            assert(kinds@ =~= platform_rows(version)[2].columns);
            rows.push(row(ROW_SECTION, kinds, Self::get_parser_3()));
            let kinds = vec![
                ExpectedType::Integer32,
                ExpectedType::Integer32,
                ExpectedType::String,
            ];
            assert(kinds@ =~= platform_rows(version)[3].columns);
            rows.push(row(ROW_SLOID, kinds, Self::get_parser_4_1()));
            let kinds = vec![
                ExpectedType::Integer32,
                ExpectedType::Integer32,
                ExpectedType::String,
            ];
            assert(kinds@ =~= platform_rows(version)[4].columns);
            rows.push(row(ROW_COORD, kinds, Self::get_parser_5_1()));
            let row_parser = RowParser::new(rows);
            assert(row_parser@ =~= platform_rows(version));
            row_parser
        } else {
            let mut rows: Vec<RowDefinition> = Vec::new();
            let kinds = vec![
                ExpectedType::Integer32,
                ExpectedType::Integer32,
                ExpectedType::String,
                ExpectedType::Integer32,
                ExpectedType::OptionInteger32,
                ExpectedType::OptionInteger32,
            ];
            assert(kinds@ =~= platform_rows(version)[0].columns);
            rows.push(row(ROW_JOURNEY_PLATFORM, kinds, Self::get_parser_1()));
            let kinds = vec![
                ExpectedType::Integer32,
                ExpectedType::Integer32,
                ExpectedType::String,
            ];
            assert(kinds@ =~= platform_rows(version)[1].columns);
            rows.push(row(ROW_PLATFORM, kinds, Self::get_parser_2()));
            let kinds = vec![
                ExpectedType::Integer32,
                ExpectedType::Integer32,
                ExpectedType::String,
            ];
            assert(kinds@ =~= platform_rows(version)[2].columns);
            rows.push(row(ROW_SLOID, kinds, Self::get_parser_4_2()));
            let kinds = vec![
                ExpectedType::Integer32,
                ExpectedType::Integer32,
                ExpectedType::String,
            ];
            assert(kinds@ =~= platform_rows(version)[3].columns);
            rows.push(row(ROW_COORD, kinds, Self::get_parser_5_2()));
            let row_parser = RowParser::new(rows);
            assert(row_parser@ =~= platform_rows(version));
            row_parser
        };
        let files = vec![
            "GLEIS".to_owned(),
            "GLEIS_LV95".to_owned(),
            "GLEIS_WGS".to_owned(),
            "GLEISE_LV95".to_owned(),
            "GLEISE_WGS".to_owned(),
        ];
        assert(texts(files@) =~= seq!["GLEIS"@, "GLEIS_LV95"@, "GLEIS_WGS"@, "GLEISE_LV95"@, "GLEISE_WGS"@]);
        Self { files, row_parser }
    }

    /// The shapes of row that the decoder knows.
    pub closed spec fn shapes(&self) -> Seq<RowShape> {
        self.row_parser@
    }

    /// The names of the files that the decoder reads.
    pub closed spec fn file_names(&self) -> Seq<Seq<char>> {
        texts(self.files@)
    }

    /// The names of the files that the decoder reads.
    pub fn files(&self) -> (names: &Vec<String>)
        ensures
            texts(names@) == self.file_names(),
    {
        &self.files
    }

    /// The classifier of the rows.
    pub fn row_parser(&self) -> (row_parser: &RowParser)
        ensures
            row_parser@ == self.shapes(),
    {
        &self.row_parser
    }

    /// Decodes the main file and the files of the two coordinate systems.
    /// The journeys that the rows refer to must be among `journeys`.
    pub fn parse(
        &self,
        version: Version,
        main: &[u8],
        lv95: &[u8],
        wgs84: &[u8],
        journeys: &FxHashSet<(i32, String)>,
    ) -> (result: Result<(Vec<JourneyPlatform>, FxHashMap<i32, Platform>), ParseError>)
        ensures
            match result {
                Ok(decoded) => decoded_platforms(
                    self.shapes(),
                    version,
                    main@,
                    lv95@,
                    wgs84@,
                    journey_keys(*journeys),
                ) == Ok::<(Seq<JourneyPlatformData>, Map<i32, PlatformData>), Failure>(
                    (journey_platform_views(decoded.0@), entity_views(decoded.1@)),
                ),
                Err(e) => decoded_platforms(
                    self.shapes(),
                    version,
                    main@,
                    lv95@,
                    wgs84@,
                    journey_keys(*journeys),
                ) == Err::<(Seq<JourneyPlatformData>, Map<i32, PlatformData>), Failure>(e@),
            },
    {
        let mut first = FirstPassSink::new(version);
        decode(main, 0, &self.row_parser, &mut first)?;
        let FirstPassSink { version: _, bytes_offset, journey_rows, platforms, auto_increment: _, ids } =
            first;
        let journey_platform = create_journey_instances(journey_rows, journeys, &ids)?;
        let (platforms, ids) = self.load_coordinates_for_platforms(
            version,
            lv95,
            CoordinateType::LV95,
            bytes_offset,
            ids,
            platforms,
        )?;
        let (platforms, _) = self.load_coordinates_for_platforms(
            version,
            wgs84,
            CoordinateType::WGS84,
            bytes_offset,
            ids,
            platforms,
        )?;
        Ok((journey_platform, platforms))
    }

    /// Reads the file of one coordinate system from a byte offset on and
    /// gives the platforms their location identifiers and coordinates.
    pub fn load_coordinates_for_platforms(
        &self,
        version: Version,
        content: &[u8],
        coordinate_system: CoordinateType,
        bytes_offset: u64,
        pk_type_converter: FxHashMap<(i32, i32), i32>,
        data: FxHashMap<i32, Platform>,
    ) -> (result: Result<(FxHashMap<i32, Platform>, FxHashMap<(i32, i32), i32>), ParseError>)
        ensures
            match result {
                Ok(after) => decoded_file::<CoordinateSink>(
                    self.shapes(),
                    content@,
                    bytes_offset as nat,
                    SecondPass {
                        version,
                        coordinate_system,
                        ids: pair_ids(pk_type_converter),
                        data: entity_views(data@),
                    },
                ) == Ok::<SecondPass, Failure>(
                    SecondPass {
                        version,
                        coordinate_system,
                        ids: pair_ids(pk_type_converter),
                        data: entity_views(after.0@),
                    },
                ) && pair_ids(after.1) == pair_ids(pk_type_converter),
                Err(e) => decoded_file::<CoordinateSink>(
                    self.shapes(),
                    content@,
                    bytes_offset as nat,
                    SecondPass {
                        version,
                        coordinate_system,
                        ids: pair_ids(pk_type_converter),
                        data: entity_views(data@),
                    },
                ) == Err::<SecondPass, Failure>(e@),
            },
    {
        let mut sink = CoordinateSink { version, coordinate_system, ids: pk_type_converter, data };
        let ghost start = sink.state();
        decode(content, bytes_offset, &self.row_parser, &mut sink)?;
        proof {
            let lines = crate::lines::source_lines(content@, bytes_offset as nat)->0;
            let all = crate::parsing::file_parser::records(self.shapes(), lines);
            lemma_second_pass_keeps_setting(all, start, all.len());
        }
        Ok((sink.data, sink.ids))
    }
}

/// What the pass over the main file has accumulated: the byte offset at which
/// the rows of journeys end, these rows, the platforms by identifier, the
/// number of identifiers handed out, and the identifiers by stop and index.
pub ghost struct FirstPass {
    pub version: Version,
    pub offset: nat,
    pub journey_rows: Seq<Seq<TypedValue>>,
    pub platforms: Map<i32, PlatformData>,
    pub issued: nat,
    pub ids: Map<(i32, i32), i32>,
}

impl FirstPass {
    /// Nothing accumulated yet.
    pub open spec fn start(version: Version) -> FirstPass {
        FirstPass {
            version,
            offset: 0,
            journey_rows: Seq::empty(),
            platforms: Map::empty(),
            issued: 0,
            ids: Map::empty(),
        }
    }
}

/// What a pass over a coordinate file works on: the release and the
/// coordinate system of the file, the identifiers by stop and index, and the
/// platforms by identifier.
pub ghost struct SecondPass {
    pub version: Version,
    pub coordinate_system: CoordinateType,
    pub ids: Map<(i32, i32), i32>,
    pub data: Map<i32, PlatformData>,
}

/// Key and value of one entry of the description of a platform: the key comes
/// first, the value follows a blank and a quote.
pub open spec fn entry_of(item: Seq<char>) -> Result<(Seq<char>, Seq<char>), Failure> {
    let parts = split_on_pair(item, ' ', '\'');
    if parts.len() < 2 {
        Err(Failure::MissingPart)
    } else {
        Ok((parts[0], parts[1]))
    }
}

/// Code and sectors that the first `k` entries give. Empty entries give
/// nothing; a later entry of a key replaces an earlier one.
pub open spec fn entries_after(items: Seq<Seq<char>>, k: nat) -> Result<
    (Option<Seq<char>>, Option<Seq<char>>),
    Failure,
>
    decreases k,
{
    if k == 0 {
        Ok((None, None))
    } else {
        match entries_after(items, (k - 1) as nat) {
            Err(failure) => Err(failure),
            Ok((code, sectors)) => if items[k - 1].len() == 0 {
                Ok((code, sectors))
            } else {
                match entry_of(items[k - 1]) {
                    Err(failure) => Err(failure),
                    Ok((key, value)) => if key == seq!['G'] {
                        Ok((Some(value), sectors))
                    } else if key == seq!['A'] {
                        Ok((code, Some(value)))
                    } else {
                        Ok((code, sectors))
                    },
                }
            },
        }
    }
}

/// Once an entry has failed, the entries after it do not change the failure.
pub proof fn lemma_entry_failure_is_final(items: Seq<Seq<char>>, k: nat, m: nat)
    requires
        entries_after(items, k) is Err,
        m >= k,
    ensures
        entries_after(items, m) == entries_after(items, k),
    decreases m,
{
    if m > k {
        lemma_entry_failure_is_final(items, k, (m - 1) as nat);
    }
}

/// The code and the sectors in the description of a platform. The entries
/// end with a quote and a blank each; the code, under the key `G`, must be
/// there, the sectors, under the key `A`, may be.
pub open spec fn platform_data_of(data: Seq<char>) -> Result<(Seq<char>, Option<Seq<char>>), Failure> {
    let items = split_on_pair(data.push(' '), '\'', ' ');
    match entries_after(items, items.len()) {
        Err(failure) => Err(failure),
        Ok((None, _)) => Err(Failure::MissingPart),
        Ok((Some(code), sectors)) => Ok((code, sectors)),
    }
}

/// Stop and index of the platform that a row describes, and the platform,
/// which gets the identifier that follows the `issued` ones.
pub open spec fn platform_in_row(values: Seq<TypedValue>, issued: nat) -> Result<
    ((i32, i32), PlatformData),
    Failure,
> {
    match read_i32(values, 0) {
        Err(failure) => Err(failure),
        Ok(stop_id) => match read_i32(values, 1) {
            Err(failure) => Err(failure),
            Ok(index) => match read_text(values, 2) {
                Err(failure) => Err(failure),
                Ok(platform_data) => if issued >= i32::MAX {
                    Err(Failure::IdentifiersExhausted)
                } else {
                    match platform_data_of(platform_data) {
                        Err(failure) => Err(failure),
                        Ok((code, sectors)) => Ok(
                            (
                                (stop_id, index),
                                PlatformData {
                                    id: (issued + 1) as i64,
                                    number: code,
                                    sectors,
                                    sloid: Seq::empty(),
                                    lv95_coordinate: CoordinateData::origin(),
                                    wgs84_coordinate: CoordinateData::origin(),
                                },
                            ),
                        ),
                    }
                },
            },
        },
    }
}

/// What one more record makes of the pass over the main file. A row of a
/// journey adds its bytes to the offset and is kept for later; a row of a
/// platform makes a platform. The latest release has rows of sectors,
/// location identifiers and coordinates in this file, which are passed over.
pub open spec fn first_pass_step(state: FirstPass, record: Record) -> Result<FirstPass, Failure> {
    if record.0 == ROW_JOURNEY_PLATFORM {
        if state.offset + record.1 > u64::MAX {
            Err(Failure::LineTooLong)
        } else {
            Ok(
                FirstPass {
                    offset: (state.offset + record.1) as nat,
                    journey_rows: state.journey_rows.push(record.2),
                    ..state
                },
            )
        }
    } else if record.0 == ROW_PLATFORM {
        match platform_in_row(record.2, state.issued) {
            Err(failure) => Err(failure),
            Ok((key, platform)) => Ok(
                FirstPass {
                    platforms: state.platforms.insert((state.issued + 1) as i32, platform),
                    issued: state.issued + 1,
                    ids: state.ids.insert(key, (state.issued + 1) as i32),
                    ..state
                },
            ),
        }
    } else if state.version == Version::V_5_40_41_2_0_7 && (record.0 == ROW_SECTION || record.0
        == ROW_SLOID || record.0 == ROW_COORD) {
        Ok(state)
    } else {
        Err(Failure::UnexpectedRow)
    }
}

/// The time of day of a journey at a platform, where the number in the file
/// fits the sixteen bits that it is kept in.
pub open spec fn hour_of(time: Option<i32>) -> Option<i16> {
    match time {
        Some(time) => if i16::MIN <= time <= i16::MAX {
            Some(time as i16)
        } else {
            None
        },
        None => None,
    }
}

/// The journey at a platform that a row gives. The journey must be known,
/// and stop and index must resolve to a platform.
pub open spec fn journey_platform_of(
    values: Seq<TypedValue>,
    journeys: Set<(i32, Seq<char>)>,
    ids: Map<(i32, i32), i32>,
) -> Result<JourneyPlatformData, Failure> {
    match read_i32(values, 0) {
        Err(failure) => Err(failure),
        Ok(stop_id) => match read_i32(values, 1) {
            Err(failure) => Err(failure),
            Ok(journey_id) => match read_text(values, 2) {
                Err(failure) => Err(failure),
                Ok(administration) => match read_i32(values, 3) {
                    Err(failure) => Err(failure),
                    Ok(index) => match read_option_i32(values, 4) {
                        Err(failure) => Err(failure),
                        Ok(time) => match read_option_i32(values, 5) {
                            Err(failure) => Err(failure),
                            Ok(bit_field_id) => if !journeys.contains(
                                (journey_id, administration),
                            ) {
                                Err(Failure::UnknownLegacyId)
                            } else {
                                match ids.get((stop_id, index)) {
                                    None => Err(Failure::UnknownLegacyId),
                                    Some(platform_id) => Ok(
                                        JourneyPlatformData {
                                            journey_id,
                                            platform_id: platform_id as i64,
                                            unknown1: administration,
                                            hour: hour_of(time),
                                            bit_field_id,
                                        },
                                    ),
                                }
                            },
                        },
                    },
                },
            },
        },
    }
}

/// The journeys at platforms that the first `k` rows give.
pub open spec fn journey_platforms_after(
    rows: Seq<Seq<TypedValue>>,
    journeys: Set<(i32, Seq<char>)>,
    ids: Map<(i32, i32), i32>,
    k: nat,
) -> Result<Seq<JourneyPlatformData>, Failure>
    decreases k,
{
    if k == 0 {
        Ok(Seq::empty())
    } else {
        match journey_platforms_after(rows, journeys, ids, (k - 1) as nat) {
            Err(failure) => Err(failure),
            Ok(made) => match journey_platform_of(rows[k - 1], journeys, ids) {
                Err(failure) => Err(failure),
                Ok(journey_platform) => Ok(made.push(journey_platform)),
            },
        }
    }
}

/// Once a row has failed, the rows after it do not change the failure.
pub proof fn lemma_journey_failure_is_final(
    rows: Seq<Seq<TypedValue>>,
    journeys: Set<(i32, Seq<char>)>,
    ids: Map<(i32, i32), i32>,
    k: nat,
    m: nat,
)
    requires
        journey_platforms_after(rows, journeys, ids, k) is Err,
        m >= k,
    ensures
        journey_platforms_after(rows, journeys, ids, m) == journey_platforms_after(
            rows,
            journeys,
            ids,
            k,
        ),
    decreases m,
{
    if m > k {
        lemma_journey_failure_is_final(rows, journeys, ids, k, (m - 1) as nat);
    }
}

/// The platforms after a row gave the location identifier of one of them.
/// Only the file of the national grid is read for location identifiers.
pub open spec fn with_sloid(state: SecondPass, values: Seq<TypedValue>) -> Result<
    SecondPass,
    Failure,
> {
    if state.coordinate_system != CoordinateType::LV95 {
        Ok(state)
    } else {
        match read_i32(values, 0) {
            Err(failure) => Err(failure),
            Ok(stop_id) => match read_i32(values, 1) {
                Err(failure) => Err(failure),
                Ok(index) => match read_text(values, 2) {
                    Err(failure) => Err(failure),
                    Ok(sloid) => match state.ids.get((stop_id, index)) {
                        None => Err(Failure::UnknownLegacyId),
                        Some(id) => match state.data.get(id) {
                            None => Err(Failure::UnknownId),
                            Some(platform) => Ok(
                                SecondPass {
                                    data: state.data.insert(
                                        id,
                                        PlatformData { sloid, ..platform },
                                    ),
                                    ..state
                                },
                            ),
                        },
                    },
                },
            },
        }
    }
}

/// The first among the first `k` words that does not denote a real number.
pub open spec fn first_that_is_no_number(tokens: Seq<Seq<char>>, k: nat) -> Option<Seq<char>>
    decreases k,
{
    if k == 0 {
        None
    } else {
        match first_that_is_no_number(tokens, (k - 1) as nat) {
            Some(token) => Some(token),
            None => if is_float_text(tokens[k - 1]) {
                None
            } else {
                Some(tokens[k - 1])
            },
        }
    }
}

/// Once a word is found that denotes no number, it stays the first such word.
pub proof fn lemma_first_that_is_no_number_stays(tokens: Seq<Seq<char>>, k: nat, m: nat)
    requires
        first_that_is_no_number(tokens, k) is Some,
        m >= k,
    ensures
        first_that_is_no_number(tokens, m) == first_that_is_no_number(tokens, k),
    decreases m,
{
    if m > k {
        lemma_first_that_is_no_number_stays(tokens, k, (m - 1) as nat);
    }
}

/// The position that a text of numbers gives in a coordinate system. The
/// text holds two real numbers or more; the first two are the position. On
/// the globe the file has them in reverse order, so they are swapped.
pub open spec fn position_of(text: Seq<char>, coordinate_system: CoordinateType) -> Result<
    CoordinateData,
    Failure,
> {
    let tokens = words(text);
    match first_that_is_no_number(tokens, tokens.len()) {
        Some(token) => Err(Failure::InvalidValue { column: 2, text: token }),
        None => if tokens.len() < 2 {
            Err(Failure::MissingValue)
        } else if coordinate_system == CoordinateType::WGS84 {
            Ok(CoordinateData { coordinate_type: coordinate_system, x: tokens[1], y: tokens[0], z: 0 })
        } else {
            Ok(CoordinateData { coordinate_type: coordinate_system, x: tokens[0], y: tokens[1], z: 0 })
        },
    }
}

/// The platforms after a row gave the coordinates of one of them.
pub open spec fn with_coordinates(state: SecondPass, values: Seq<TypedValue>) -> Result<
    SecondPass,
    Failure,
> {
    match read_i32(values, 0) {
        Err(failure) => Err(failure),
        Ok(stop_id) => match read_i32(values, 1) {
            Err(failure) => Err(failure),
            Ok(index) => match read_text(values, 2) {
                Err(failure) => Err(failure),
                Ok(text) => match position_of(text, state.coordinate_system) {
                    Err(failure) => Err(failure),
                    Ok(coordinate) => match state.ids.get((stop_id, index)) {
                        None => Err(Failure::UnknownLegacyId),
                        Some(id) => match state.data.get(id) {
                            None => Err(Failure::UnknownId),
                            Some(platform) => Ok(
                                SecondPass {
                                    data: state.data.insert(
                                        id,
                                        if state.coordinate_system == CoordinateType::LV95 {
                                            PlatformData { lv95_coordinate: coordinate, ..platform }
                                        } else {
                                            PlatformData { wgs84_coordinate: coordinate, ..platform }
                                        },
                                    ),
                                    ..state
                                },
                            ),
                        },
                    },
                },
            },
        },
    }
}

/// What one more record makes of a pass over a coordinate file. The rows
/// that the main file was read for are passed over.
pub open spec fn second_pass_step(state: SecondPass, record: Record) -> Result<SecondPass, Failure> {
    if record.0 == ROW_JOURNEY_PLATFORM || record.0 == ROW_PLATFORM || (state.version
        == Version::V_5_40_41_2_0_7 && record.0 == ROW_SECTION) {
        Ok(state)
    } else if record.0 == ROW_SLOID {
        with_sloid(state, record.2)
    } else if record.0 == ROW_COORD {
        with_coordinates(state, record.2)
    } else {
        Err(Failure::UnexpectedRow)
    }
}

/// A pass over a coordinate file changes the platforms and nothing else.
pub proof fn lemma_second_pass_keeps_setting(
    records: Seq<Result<Record, Failure>>,
    start: SecondPass,
    k: nat,
)
    requires
        k <= records.len(),
    ensures
        crate::parsing::file_parser::folded::<CoordinateSink>(records, start, k) matches Ok(state)
            ==> state.version == start.version && state.coordinate_system
            == start.coordinate_system && state.ids == start.ids,
    decreases k,
{
    if k > 0 {
        lemma_second_pass_keeps_setting(records, start, (k - 1) as nat);
    }
}

/// What each journey at a platform holds.
pub open spec fn journey_platform_views(made: Seq<JourneyPlatform>) -> Seq<JourneyPlatformData> {
    Seq::new(made.len(), |i: int| made[i]@)
}

/// What each kept row holds.
pub open spec fn row_views(rows: Seq<Vec<ParsedValue>>) -> Seq<Seq<TypedValue>> {
    Seq::new(rows.len(), |i: int| value_views(rows[i]@))
}

/// The journeys at platforms and the platforms that the three files decode to.
pub open spec fn decoded_platforms(
    shapes: Seq<RowShape>,
    version: Version,
    main: Seq<u8>,
    lv95: Seq<u8>,
    wgs84: Seq<u8>,
    journeys: Set<(i32, Seq<char>)>,
) -> Result<(Seq<JourneyPlatformData>, Map<i32, PlatformData>), Failure> {
    match decoded_file::<FirstPassSink>(shapes, main, 0, FirstPass::start(version)) {
        Err(failure) => Err(failure),
        Ok(first) => match journey_platforms_after(
            first.journey_rows,
            journeys,
            first.ids,
            first.journey_rows.len(),
        ) {
            Err(failure) => Err(failure),
            Ok(journey_platforms) => match decoded_file::<CoordinateSink>(
                shapes,
                lv95,
                first.offset,
                SecondPass {
                    version,
                    coordinate_system: CoordinateType::LV95,
                    ids: first.ids,
                    data: first.platforms,
                },
            ) {
                Err(failure) => Err(failure),
                Ok(second) => match decoded_file::<CoordinateSink>(
                    shapes,
                    wgs84,
                    first.offset,
                    SecondPass {
                        version,
                        coordinate_system: CoordinateType::WGS84,
                        ids: first.ids,
                        data: second.data,
                    },
                ) {
                    Err(failure) => Err(failure),
                    Ok(third) => Ok((journey_platforms, third.data)),
                },
            },
        },
    }
}

/// The accumulator of the pass over the main file.
pub struct FirstPassSink {
    version: Version,
    bytes_offset: u64,
    journey_rows: Vec<Vec<ParsedValue>>,
    platforms: FxHashMap<i32, Platform>,
    auto_increment: AutoIncrement,
    ids: FxHashMap<(i32, i32), i32>,
}

impl FirstPassSink {
    /// An accumulator that holds nothing yet.
    pub fn new(version: Version) -> (sink: Self)
        ensures
            sink.state() == FirstPass::start(version),
    {
        proof {
            lemma_views_of_empty::<Platform>();
        }
        let sink = FirstPassSink {
            version,
            bytes_offset: 0,
            journey_rows: Vec::new(),
            platforms: new_table(),
            auto_increment: AutoIncrement::new(),
            ids: new_pair_table(),
        };
        assert(row_views(sink.journey_rows@) =~= Seq::empty());
        sink
    }
}

impl RecordSink for FirstPassSink {
    type State = FirstPass;

    closed spec fn state(&self) -> FirstPass {
        FirstPass {
            version: self.version,
            offset: self.bytes_offset as nat,
            journey_rows: row_views(self.journey_rows@),
            platforms: entity_views(self.platforms@),
            issued: self.auto_increment.issued(),
            ids: pair_ids(self.ids),
        }
    }

    open spec fn step(state: FirstPass, record: Record) -> Result<FirstPass, Failure> {
        first_pass_step(state, record)
    }

    fn accept(&mut self, row: ParsedRow) -> (result: Result<(), ParseError>) {
        let (id, bytes_read, values) = row;
        if id == ROW_JOURNEY_PLATFORM {
            if bytes_read > u64::MAX - self.bytes_offset {
                return Err(ParseError::LineTooLong);
            }
            self.bytes_offset = self.bytes_offset + bytes_read;
            let ghost before = self.journey_rows@;
            self.journey_rows.push(values);
            assert(row_views(self.journey_rows@) =~= row_views(before).push(value_views(values@)));
            Ok(())
        } else if id == ROW_PLATFORM {
            let platform = create_instance(values, &mut self.auto_increment, &mut self.ids)?;
            let id = platform.0;
            proof {
                lemma_views_after_insert(self.platforms@, id, platform.1);
            }
            store(&mut self.platforms, id, platform.1);
            Ok(())
        } else if self.version == Version::V_5_40_41_2_0_7 && (id == ROW_SECTION || id
            == ROW_SLOID || id == ROW_COORD) {
            Ok(())
        } else {
            Err(ParseError::UnexpectedRow)
        }
    }
}

/// The accumulator of a pass over a coordinate file.
pub struct CoordinateSink {
    version: Version,
    coordinate_system: CoordinateType,
    ids: FxHashMap<(i32, i32), i32>,
    data: FxHashMap<i32, Platform>,
}

impl RecordSink for CoordinateSink {
    type State = SecondPass;

    closed spec fn state(&self) -> SecondPass {
        SecondPass {
            version: self.version,
            coordinate_system: self.coordinate_system,
            ids: pair_ids(self.ids),
            data: entity_views(self.data@),
        }
    }

    open spec fn step(state: SecondPass, record: Record) -> Result<SecondPass, Failure> {
        second_pass_step(state, record)
    }

    fn accept(&mut self, row: ParsedRow) -> (result: Result<(), ParseError>) {
        let (id, _, values) = row;
        if id == ROW_JOURNEY_PLATFORM || id == ROW_PLATFORM || (self.version
            == Version::V_5_40_41_2_0_7 && id == ROW_SECTION) {
            Ok(())
        } else if id == ROW_SLOID {
            platform_set_sloid(values, self.coordinate_system, &self.ids, &mut self.data)
        } else if id == ROW_COORD {
            platform_set_coordinates(values, self.coordinate_system, &self.ids, &mut self.data)
        } else {
            Err(ParseError::UnexpectedRow)
        }
    }
}

/// Builds the platform of a row, with the next identifier, and registers the
/// identifier for the stop and the index of the platform.
pub fn create_instance(
    values: Vec<ParsedValue>,
    auto_increment: &mut AutoIncrement,
    platforms_pk_type_converter: &mut FxHashMap<(i32, i32), i32>,
) -> (result: Result<(i32, Platform), ParseError>)
    ensures
        match result {
            Ok(made) => platform_in_row(value_views(values@), old(auto_increment).issued())
                matches Ok(expected) && expected.1 == made.1@ && made.0 == old(
                auto_increment,
            ).issued() + 1 && final(auto_increment).issued() == old(auto_increment).issued() + 1
                && pair_ids(*final(platforms_pk_type_converter)) == pair_ids(
                *old(platforms_pk_type_converter),
            ).insert(expected.0, made.0),
            Err(e) => platform_in_row(value_views(values@), old(auto_increment).issued()) == Err::<
                ((i32, i32), PlatformData),
                Failure,
            >(e@),
        },
{
    let stop_id = value_i32(&values, 0)?;
    let index = value_i32(&values, 1)?;
    let platform_data = value_text(&values, 2)?;
    if !auto_increment.has_next() {
        return Err(ParseError::IdentifiersExhausted);
    }
    let id = auto_increment.next();
    let (code, sectors) = parse_platform_data(platform_data)?;
    register_pair_key(platforms_pk_type_converter, (stop_id, index), id);
    Ok((id, Platform::new(id as i64, code, sectors)))
}

/// Builds the journeys at platforms of the rows that the pass over the main
/// file has kept.
pub fn create_journey_instances(
    rows: Vec<Vec<ParsedValue>>,
    journeys_pk_type_converter: &FxHashSet<(i32, String)>,
    platforms_pk_type_converter: &FxHashMap<(i32, i32), i32>,
) -> (result: Result<Vec<JourneyPlatform>, ParseError>)
    ensures
        match result {
            Ok(made) => journey_platforms_after(
                row_views(rows@),
                journey_keys(*journeys_pk_type_converter),
                pair_ids(*platforms_pk_type_converter),
                rows@.len(),
            ) == Ok::<Seq<JourneyPlatformData>, Failure>(journey_platform_views(made@)),
            Err(e) => journey_platforms_after(
                row_views(rows@),
                journey_keys(*journeys_pk_type_converter),
                pair_ids(*platforms_pk_type_converter),
                rows@.len(),
            ) == Err::<Seq<JourneyPlatformData>, Failure>(e@),
        },
{
    let mut made: Vec<JourneyPlatform> = Vec::new();
    let mut k: usize = 0;
    let ghost all = row_views(rows@);
    let ghost journeys = journey_keys(*journeys_pk_type_converter);
    let ghost ids = pair_ids(*platforms_pk_type_converter);
    assert(journey_platform_views(made@) =~= Seq::empty());
    while k < rows.len()
        invariant
            k <= rows@.len(),
            all == row_views(rows@),
            journeys == journey_keys(*journeys_pk_type_converter),
            ids == pair_ids(*platforms_pk_type_converter),
            journey_platforms_after(all, journeys, ids, k as nat) == Ok::<
                Seq<JourneyPlatformData>,
                Failure,
            >(journey_platform_views(made@)),
        decreases rows@.len() - k,
    {
        assert(all[k as int] == value_views(rows@[k as int]@));
        match create_journey_instance(
            &rows[k],
            journeys_pk_type_converter,
            platforms_pk_type_converter,
        ) {
            Err(e) => {
                proof {
                    lemma_journey_failure_is_final(all, journeys, ids, (k + 1) as nat, all.len());
                }
                return Err(e);
            },
            Ok(journey_platform) => {
                let ghost before = made@;
                made.push(journey_platform);
                assert(journey_platform_views(made@) =~= journey_platform_views(before).push(
                    journey_platform@,
                ));
            },
        }
        k = k + 1;
    }
    Ok(made)
}

/// Builds the journey at a platform of a row.
pub fn create_journey_instance(
    values: &Vec<ParsedValue>,
    journeys_pk_type_converter: &FxHashSet<(i32, String)>,
    platforms_pk_type_converter: &FxHashMap<(i32, i32), i32>,
) -> (result: Result<JourneyPlatform, ParseError>)
    ensures
        match result {
            Ok(journey_platform) => journey_platform_of(
                value_views(values@),
                journey_keys(*journeys_pk_type_converter),
                pair_ids(*platforms_pk_type_converter),
            ) == Ok::<JourneyPlatformData, Failure>(journey_platform@),
            Err(e) => journey_platform_of(
                value_views(values@),
                journey_keys(*journeys_pk_type_converter),
                pair_ids(*platforms_pk_type_converter),
            ) == Err::<JourneyPlatformData, Failure>(e@),
        },
{
    let stop_id = value_i32(values, 0)?;
    let journey_id = value_i32(values, 1)?;
    let administration = value_text(values, 2)?;
    let index = value_i32(values, 3)?;
    let time = value_option_i32(values, 4)?;
    let bit_field_id = value_option_i32(values, 5)?;
    if !is_known_journey(journeys_pk_type_converter, journey_id, &administration) {
        return Err(ParseError::UnknownLegacyId);
    }
    let platform_id = match resolve_pair_key(platforms_pk_type_converter, (stop_id, index)) {
        Some(id) => id,
        None => {
            return Err(ParseError::UnknownLegacyId);
        },
    };
    let hour = create_hour_from_value(time);
    Ok(JourneyPlatform::new(journey_id, platform_id as i64, administration, hour, bit_field_id))
}

/// The time of day in sixteen bits, where it fits.
pub fn create_hour_from_value(time: Option<i32>) -> (hour: Option<i16>)
    ensures
        hour == hour_of(time),
{
    match time {
        Some(time) => if -32768 <= time && time <= 32767 {
            Some(time as i16)
        } else {
            None
        },
        None => None,
    }
}

/// Decodes the files of platforms of a release.
pub fn parse(
    version: Version,
    main: &[u8],
    lv95: &[u8],
    wgs84: &[u8],
    journeys_pk_type_converter: &FxHashSet<(i32, String)>,
) -> (result: Result<(Vec<JourneyPlatform>, FxHashMap<i32, Platform>), ParseError>)
    ensures
        match result {
            Ok(decoded) => decoded_platforms(
                platform_rows(version),
                version,
                main@,
                lv95@,
                wgs84@,
                journey_keys(*journeys_pk_type_converter),
            ) == Ok::<(Seq<JourneyPlatformData>, Map<i32, PlatformData>), Failure>(
                (journey_platform_views(decoded.0@), entity_views(decoded.1@)),
            ),
            Err(e) => decoded_platforms(
                platform_rows(version),
                version,
                main@,
                lv95@,
                wgs84@,
                journey_keys(*journeys_pk_type_converter),
            ) == Err::<(Seq<JourneyPlatformData>, Map<i32, PlatformData>), Failure>(e@),
        },
{
    PlatformParser::new(version).parse(version, main, lv95, wgs84, journeys_pk_type_converter)
}

/// Gives the platform that a row names its location identifier. Only the
/// file of the national grid is read for location identifiers.
pub fn platform_set_sloid(
    values: Vec<ParsedValue>,
    coordinate_system: CoordinateType,
    pk_type_converter: &FxHashMap<(i32, i32), i32>,
    data: &mut FxHashMap<i32, Platform>,
) -> (result: Result<(), ParseError>)
    ensures
        match result {
            Ok(()) => with_sloid(
                SecondPass {
                    version: Version::V_5_40_41_2_0_7,
                    coordinate_system,
                    ids: pair_ids(*pk_type_converter),
                    data: entity_views(old(data)@),
                },
                value_views(values@),
            ) matches Ok(state) && state.data == entity_views(final(data)@),
            Err(e) => with_sloid(
                SecondPass {
                    version: Version::V_5_40_41_2_0_7,
                    coordinate_system,
                    ids: pair_ids(*pk_type_converter),
                    data: entity_views(old(data)@),
                },
                value_views(values@),
            ) == Err::<SecondPass, Failure>(e@),
        },
{
    if coordinate_system == CoordinateType::LV95 {
        let stop_id = value_i32(&values, 0)?;
        let index = value_i32(&values, 1)?;
        let sloid = value_text(&values, 2)?;
        let id = match resolve_pair_key(pk_type_converter, (stop_id, index)) {
            Some(id) => id,
            None => {
                return Err(ParseError::UnknownLegacyId);
            },
        };
        proof {
            lemma_views_of_entry(data@, id);
        }
        match take(data, id) {
            None => Err(ParseError::UnknownId),
            Some(mut platform) => {
                platform.set_sloid(sloid);
                proof {
                    lemma_views_after_insert(old(data)@, id, platform);
                }
                store(data, id, platform);
                Ok(())
            },
        }
    } else {
        Ok(())
    }
}

/// Gives the platform that a row names its coordinates in a system.
pub fn platform_set_coordinates(
    values: Vec<ParsedValue>,
    coordinate_system: CoordinateType,
    pk_type_converter: &FxHashMap<(i32, i32), i32>,
    data: &mut FxHashMap<i32, Platform>,
) -> (result: Result<(), ParseError>)
    ensures
        match result {
            Ok(()) => with_coordinates(
                SecondPass {
                    version: Version::V_5_40_41_2_0_7,
                    coordinate_system,
                    ids: pair_ids(*pk_type_converter),
                    data: entity_views(old(data)@),
                },
                value_views(values@),
            ) matches Ok(state) && state.data == entity_views(final(data)@),
            Err(e) => with_coordinates(
                SecondPass {
                    version: Version::V_5_40_41_2_0_7,
                    coordinate_system,
                    ids: pair_ids(*pk_type_converter),
                    data: entity_views(old(data)@),
                },
                value_views(values@),
            ) == Err::<SecondPass, Failure>(e@),
        },
{
    let stop_id = value_i32(&values, 0)?;
    let index = value_i32(&values, 1)?;
    let text = value_text(&values, 2)?;
    let coordinate = parse_position(text.as_str(), coordinate_system)?;
    let id = match resolve_pair_key(pk_type_converter, (stop_id, index)) {
        Some(id) => id,
        None => {
            return Err(ParseError::UnknownLegacyId);
        },
    };
    proof {
        lemma_views_of_entry(data@, id);
    }
    match take(data, id) {
        None => Err(ParseError::UnknownId),
        Some(mut platform) => {
            match coordinate_system {
                CoordinateType::LV95 => platform.set_lv95_coordinate(coordinate),
                CoordinateType::WGS84 => platform.set_wgs84_coordinate(coordinate),
            }
            proof {
                lemma_views_after_insert(old(data)@, id, platform);
            }
            store(data, id, platform);
            Ok(())
        },
    }
}

/// Reads a position from a text of real numbers.
pub fn parse_position(text: &str, coordinate_system: CoordinateType) -> (result: Result<
    Coordinate,
    ParseError,
>)
    ensures
        match result {
            Ok(coordinate) => position_of(text@, coordinate_system) == Ok::<
                CoordinateData,
                Failure,
            >(coordinate@),
            Err(e) => position_of(text@, coordinate_system) == Err::<CoordinateData, Failure>(e@),
        },
{
    let chars = to_chars(text);
    assert(chars@.subrange(0, chars@.len() as int) =~= chars@);
    let ranges = word_ranges(chars.as_slice(), 0, chars.len());
    let ghost tokens = words(text@);
    let mut k: usize = 0;
    while k < ranges.len()
        invariant
            k <= ranges@.len(),
            chars@ == text@,
            tokens == words(text@),
            tokens == cut(chars@, ranges@),
            ranges_within(ranges@, chars@.len()),
            first_that_is_no_number(tokens, k as nat) is None,
        decreases ranges@.len() - k,
    {
        let (from, to) = ranges[k];
        assert(tokens[k as int] == chars@.subrange(from as int, to as int));
        if !is_float_literal(chars.as_slice(), from, to) {
            proof {
                lemma_first_that_is_no_number_stays(tokens, (k + 1) as nat, tokens.len());
            }
            let token = text.substring_char(from, to).to_owned();
            return Err(ParseError::InvalidValue { column: 2, text: token });
        }
        k = k + 1;
    }
    if ranges.len() < 2 {
        return Err(ParseError::MissingValue);
    }
    let (first_from, first_to) = ranges[0];
    let (second_from, second_to) = ranges[1];
    let mut xy1 = text.substring_char(first_from, first_to).to_owned();
    let mut xy2 = text.substring_char(second_from, second_to).to_owned();
    if coordinate_system == CoordinateType::WGS84 {
        std::mem::swap(&mut xy1, &mut xy2);
    }
    Ok(Coordinate::new(coordinate_system, xy1, xy2, 0))
}

/// Reads the code of a platform, and its sectors where it has any, from the
/// description of the platform.
pub fn parse_platform_data(platform_data: String) -> (result: Result<
    (String, Option<String>),
    ParseError,
>)
    ensures
        match result {
            Ok(parts) => platform_data_of(platform_data@) == Ok::<
                (Seq<char>, Option<Seq<char>>),
                Failure,
            >((parts.0@, crate::models::optional_text(parts.1))),
            Err(e) => platform_data_of(platform_data@) == Err::<
                (Seq<char>, Option<Seq<char>>),
                Failure,
            >(e@),
        },
{
    let mut extended = platform_data;
    extended.append(" ");
    proof {
        reveal_strlit(" ");
        assert(extended@ =~= platform_data@.push(' '));
    }
    let text = extended.as_str();
    let chars = to_chars(text);
    assert(chars@.subrange(0, chars@.len() as int) =~= chars@);
    let items = split_pair_ranges(chars.as_slice(), 0, chars.len(), '\'', ' ');
    let ghost pieces = split_on_pair(chars@, '\'', ' ');
    let mut code: Option<String> = None;
    let mut sectors: Option<String> = None;
    let mut k: usize = 0;
    while k < items.len()
        invariant
            k <= items@.len(),
            chars@ == text@,
            chars@ == platform_data@.push(' '),
            pieces == split_on_pair(chars@, '\'', ' '),
            pieces == cut(chars@, items@),
            ranges_within(items@, chars@.len()),
            entries_after(pieces, k as nat) == Ok::<
                (Option<Seq<char>>, Option<Seq<char>>),
                Failure,
            >((crate::models::optional_text(code), crate::models::optional_text(sectors))),
        decreases items@.len() - k,
    {
        let (from, to) = items[k];
        assert(pieces[k as int] == chars@.subrange(from as int, to as int));
        if from < to {
            let halves = split_pair_ranges(chars.as_slice(), from, to, ' ', '\'');
            if halves.len() < 2 {
                proof {
                    assert(entries_after(pieces, (k + 1) as nat) is Err);
                    lemma_entry_failure_is_final(pieces, (k + 1) as nat, pieces.len());
                }
                return Err(ParseError::MissingPart);
            }
            let (key_from, key_to) = halves[0];
            let (value_from, value_to) = halves[1];
            let ghost split = split_on_pair(pieces[k as int], ' ', '\'');
            assert(split[0] == chars@.subrange(key_from as int, key_to as int));
            assert(split[1] == chars@.subrange(value_from as int, value_to as int));
            if is_letter(chars.as_slice(), key_from, key_to, 'G') {
                code = Some(text.substring_char(value_from, value_to).to_owned());
            } else if is_letter(chars.as_slice(), key_from, key_to, 'A') {
                sectors = Some(text.substring_char(value_from, value_to).to_owned());
            }
        }
        k = k + 1;
    }
    match code {
        Some(code) => Ok((code, sectors)),
        None => Err(ParseError::MissingPart),
    }
}

/// Whether `chars[from..to]` is the one given letter.
pub fn is_letter(chars: &[char], from: usize, to: usize, letter: char) -> (same: bool)
    requires
        from <= to <= chars@.len(),
    ensures
        same == (chars@.subrange(from as int, to as int) == seq![letter]),
{
    if to - from == 1 && chars[from] == letter {
        assert(chars@.subrange(from as int, to as int) =~= seq![letter]);
        true
    } else {
        proof {
            if to - from == 1 {
                assert(chars@.subrange(from as int, to as int)[0] == chars@[from as int]);
                assert(seq![letter][0] == letter);
            } else {
                assert(seq![letter].len() == 1);
            }
        }
        false
    }
}

} // verus!
