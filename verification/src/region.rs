//! The catalog of regions: from a short code such as `IAD` to the identifier
//! of the region, such as `us-ashburn-1`.

use crate::error::ConfigError;
use crate::text::{
    ascii_lowered, ascii_uppered, blank, capitals, is_white_space, lemma_ascii_case,
    lemma_normalized_case, lemma_trimmed_padded, lower_char, normalize, normalized, trimmed,
};
use vstd::prelude::*;
use vstd::utf8::is_ascii_chars;

verus! {

/// One entry of the catalog.
pub struct Region {
    /// The code in the form in which it is compared: lower case, no white space around it.
    pub key: String,
    /// The identifier of the region.
    pub identifier: String,
    /// The line that shows the region in a listing.
    pub label: String,
}

/// A `Region` as a mathematical value.
pub struct RegionView {
    pub key: Seq<char>,
    pub identifier: Seq<char>,
    pub label: Seq<char>,
}

impl View for Region {
    type V = RegionView;

    open spec fn view(&self) -> RegionView {
        RegionView { key: self.key@, identifier: self.identifier@, label: self.label@ }
    }
}

/// A table of regions. Its order is the order in which the entries were added.
pub struct Catalog {
    pub regions: Vec<Region>,
}

impl View for Catalog {
    type V = Seq<RegionView>;

    open spec fn view(&self) -> Seq<RegionView> {
        self.regions@.map_values(|r: Region| r@)
    }
}

/// The entry with the given key, identifier and label.
pub open spec fn region(key: Seq<char>, identifier: Seq<char>, label: Seq<char>) -> RegionView {
    RegionView { key, identifier, label }
}

/// The identifier of the first entry of `table` whose key is `key`.
pub open spec fn lookup(table: Seq<RegionView>, key: Seq<char>) -> Option<Seq<char>>
    decreases table.len(),
{
    if table.len() == 0 {
        None
    } else if table[0].key == key {
        Some(table[0].identifier)
    } else {
        lookup(table.drop_first(), key)
    }
}

/// The identifier that `table` gives for a code as a user writes it: in any
/// letter case, with white space around it.
pub open spec fn resolve(table: Seq<RegionView>, code: Seq<char>) -> Option<Seq<char>> {
    lookup(table, normalized(code))
}

/// The codes of `table`, each in capital letters, in the order of the table.
pub open spec fn capital_codes(table: Seq<RegionView>) -> Seq<Seq<char>> {
    table.map_values(|r: RegionView| ascii_uppered(r.key))
}

/// The lines of a listing of `table`.
pub open spec fn labels(table: Seq<RegionView>) -> Seq<Seq<char>> {
    table.map_values(|r: RegionView| r.label)
}

/// The regions that the library knows without being told.
pub open spec fn standard() -> Seq<RegionView> {
    seq![
        region("iad"@, "us-ashburn-1"@, "IAD - Ashburn, US"@),
        region("lon"@, "uk-london-1"@, "LON - London, UK"@),
        region("phx"@, "us-phoenix-1"@, "PHX - Phoenix, US"@),
        region("fra"@, "eu-frankfurt-1"@, "FRA - Frankfurt, DE"@),
        region("syd"@, "ap-sydney-1"@, "SYD - Sydney, AU"@),
        region("mel"@, "ap-melbourne-1"@, "MEL - Melbourne, AU"@),
        region("gru"@, "sa-saopaulo-1"@, "GRU - Sao Paulo, BR"@),
        region("vcp"@, "sa-vinhedo-1"@, "VCP - Vinhedo, BR"@),
        region("yul"@, "ca-montreal-1"@, "YUL - Montreal, CA"@),
        region("yyz"@, "ca-toronto-1"@, "YYZ - Toronto, CA"@),
        region("scl"@, "sa-santiago-1"@, "SCL - Santiago, CL"@),
        region("vap"@, "sa-valparaiso-1"@, "VAP - Valparaiso, CL"@),
        region("bog"@, "sa-bogota-1"@, "BOG - Bogota, CO"@),
        region("cdg"@, "eu-paris-1"@, "CDG - Paris, FR"@),
        region("mrs"@, "eu-marseille-1"@, "MRS - Marseille, FR"@),
        region("hyd"@, "ap-hyderabad-1"@, "HYD - Hyderabad, IN"@),
        region("bom"@, "ap-mumbai-1"@, "BOM - Mumbai, IN"@),
        region("mtz"@, "il-jerusalem-1"@, "MTZ - Jerusalem, IL"@),
        region("lin"@, "eu-milan-1"@, "LIN - Milan, IT"@),
        region("kix"@, "ap-osaka-1"@, "KIX - Osaka, JP"@),
        region("nrt"@, "ap-tokyo-1"@, "NRT - Tokyo, JP"@),
        region("qro"@, "mx-queretaro-1"@, "QRO - Queretaro, MX"@),
        region("mty"@, "mx-monterrey-1"@, "MTY - Monterrey, MX"@),
        region("ams"@, "eu-amsterdam-1"@, "AMS - Amsterdam, NL"@),
        region("jed"@, "me-jeddah-1"@, "JED - Jeddah, SA"@),
        region("beg"@, "eu-jovanovac-1"@, "BEG - Jovanovac, RS"@),
        region("sin"@, "ap-singapore-1"@, "SIN - Singapore, SG"@),
        region("jnb"@, "af-johannesburg-1"@, "JNB - Johannesburg, ZA"@),
        region("icn"@, "ap-seoul-1"@, "ICN - Seoul, KR"@),
        region("yny"@, "ap-chuncheon-1"@, "YNY - Chuncheon, KR"@),
        region("mad"@, "eu-madrid-1"@, "MAD - Madrid, ES"@),
        region("arn"@, "eu-stockholm-1"@, "ARN - Stockholm, SE"@),
        region("zrh"@, "eu-zurich-1"@, "ZRH - Zurich, CH"@),
        region("auh"@, "me-abudhabi-1"@, "AUH - Abu Dhabi, AE"@),
        region("dxb"@, "me-dubai-1"@, "DXB - Dubai, AE"@),
        region("cwl"@, "uk-cardiff-1"@, "CWL - Cardiff, UK"@),
        region("ord"@, "us-chicago-1"@, "ORD - Chicago, US"@),
        region("sjc"@, "us-sanjose-1"@, "SJC - San Jose, US"@),
    ]
}

impl Catalog {
    /// A catalog without entries.
    pub fn new() -> (c: Catalog)
        ensures
            c@ == Seq::<RegionView>::empty(),
    {
        let c = Catalog { regions: Vec::new() };
        assert(c@ =~= Seq::<RegionView>::empty());
        c
    }

    /// Adds an entry under the key as it is given.
    pub fn insert(&mut self, key: &str, identifier: &str, label: &str)
        ensures
            final(self)@ == old(self)@.push(region(key@, identifier@, label@)),
    {
        let entry = Region {
            key: key.to_string(),
            identifier: identifier.to_string(),
            label: label.to_string(),
        };
        self.regions.push(entry);
        assert(self@ =~= old(self)@.push(region(key@, identifier@, label@)));
    }

    /// Adds an entry for a code as a user writes it. An entry that is already
    /// there under the same key stays the one that is found.
    pub fn add(&mut self, code: &str, identifier: &str, label: &str)
        ensures
            final(self)@ == old(self)@.push(region(normalized(code@), identifier@, label@)),
    {
        let key = normalize(code);
        self.insert(key.as_str(), identifier, label);
    }

    /// The identifier of the first entry whose key is `key`.
    pub fn lookup(&self, key: &str) -> (r: Option<String>)
        ensures
            match r {
                Some(id) => lookup(self@, key@) == Some(id@),
                None => lookup(self@, key@) is None,
            },
    {
        let wanted = key.to_string();
        let mut i: usize = 0;
        assert(self@.skip(0) =~= self@);
        while i < self.regions.len()
            invariant
                i <= self.regions.len(),
                wanted@ == key@,
                lookup(self@, key@) == lookup(self@.skip(i as int), key@),
            decreases self.regions.len() - i,
        {
            assert(self@.skip(i as int).drop_first() =~= self@.skip(i + 1));
            assert(self@.skip(i as int)[0] == self.regions@[i as int]@);
            if self.regions[i].key == wanted {
                return Some(self.regions[i].identifier.clone());
            }
            i = i + 1;
        }
        None
    }

    /// The identifier for a code as a user writes it.
    pub fn resolve(&self, code: &str) -> (r: Result<String, ConfigError>)
        ensures
            match r {
                Ok(id) => resolve(self@, code@) == Some(id@),
                Err(e) => resolve(self@, code@) is None && e == ConfigError::InvalidRegionCode,
            },
    {
        let key = normalize(code);
        match self.lookup(key.as_str()) {
            Some(id) => Ok(id),
            None => Err(ConfigError::InvalidRegionCode),
        }
    }

    /// The codes of the regions, each in capital letters, one for each entry,
    /// in the order of the table.
    pub fn codes(&self) -> (r: Vec<String>)
        ensures
            r.deep_view() == capital_codes(self@),
    {
        let mut out: Vec<String> = Vec::new();
        let mut i: usize = 0;
        assert(out.deep_view() =~= capital_codes(self@).take(0));
        while i < self.regions.len()
            invariant
                i <= self.regions.len(),
                out.deep_view() == capital_codes(self@).take(i as int),
            decreases self.regions.len() - i,
        {
            let ghost before = out.deep_view();
            let code = capitals(self.regions[i].key.as_str());
            out.push(code);
            assert(out.deep_view() =~= before.push(code@));
            assert(capital_codes(self@).take(i + 1) =~= capital_codes(self@).take(i as int).push(code@));
            i = i + 1;
        }
        assert(capital_codes(self@).take(i as int) =~= capital_codes(self@));
        out
    }

    /// The lines of a listing, one for each entry, in the order of the table.
    pub fn list(&self) -> (r: Vec<String>)
        ensures
            r.deep_view() == labels(self@),
    {
        let mut out: Vec<String> = Vec::new();
        let mut i: usize = 0;
        assert(out.deep_view() =~= labels(self@).take(0));
        while i < self.regions.len()
            invariant
                i <= self.regions.len(),
                out.deep_view() == labels(self@).take(i as int),
            decreases self.regions.len() - i,
        {
            let ghost before = out.deep_view();
            let line = self.regions[i].label.clone();
            out.push(line);
            assert(out.deep_view() =~= before.push(line@));
            assert(labels(self@).take(i + 1) =~= labels(self@).take(i as int).push(line@));
            i = i + 1;
        }
        assert(labels(self@).take(i as int) =~= labels(self@));
        out
    }

    /// The regions that the library knows without being told.
    pub fn standard() -> (c: Catalog)
        ensures
            c@ == standard(),
    {
        let mut c = Catalog::new();
        c.insert("iad", "us-ashburn-1", "IAD - Ashburn, US");
        c.insert("lon", "uk-london-1", "LON - London, UK");
        c.insert("phx", "us-phoenix-1", "PHX - Phoenix, US");
        c.insert("fra", "eu-frankfurt-1", "FRA - Frankfurt, DE");
        c.insert("syd", "ap-sydney-1", "SYD - Sydney, AU");
        c.insert("mel", "ap-melbourne-1", "MEL - Melbourne, AU");
        c.insert("gru", "sa-saopaulo-1", "GRU - Sao Paulo, BR");
        c.insert("vcp", "sa-vinhedo-1", "VCP - Vinhedo, BR");
        c.insert("yul", "ca-montreal-1", "YUL - Montreal, CA");
        c.insert("yyz", "ca-toronto-1", "YYZ - Toronto, CA");
        c.insert("scl", "sa-santiago-1", "SCL - Santiago, CL");
        c.insert("vap", "sa-valparaiso-1", "VAP - Valparaiso, CL");
        c.insert("bog", "sa-bogota-1", "BOG - Bogota, CO");
        c.insert("cdg", "eu-paris-1", "CDG - Paris, FR");
        c.insert("mrs", "eu-marseille-1", "MRS - Marseille, FR");
        c.insert("hyd", "ap-hyderabad-1", "HYD - Hyderabad, IN");
        c.insert("bom", "ap-mumbai-1", "BOM - Mumbai, IN");
        c.insert("mtz", "il-jerusalem-1", "MTZ - Jerusalem, IL");
        c.insert("lin", "eu-milan-1", "LIN - Milan, IT");
        c.insert("kix", "ap-osaka-1", "KIX - Osaka, JP");
        c.insert("nrt", "ap-tokyo-1", "NRT - Tokyo, JP");
        c.insert("qro", "mx-queretaro-1", "QRO - Queretaro, MX");
        c.insert("mty", "mx-monterrey-1", "MTY - Monterrey, MX");
        c.insert("ams", "eu-amsterdam-1", "AMS - Amsterdam, NL");
        c.insert("jed", "me-jeddah-1", "JED - Jeddah, SA");
        c.insert("beg", "eu-jovanovac-1", "BEG - Jovanovac, RS");
        c.insert("sin", "ap-singapore-1", "SIN - Singapore, SG");
        c.insert("jnb", "af-johannesburg-1", "JNB - Johannesburg, ZA");
        c.insert("icn", "ap-seoul-1", "ICN - Seoul, KR");
        c.insert("yny", "ap-chuncheon-1", "YNY - Chuncheon, KR");
        c.insert("mad", "eu-madrid-1", "MAD - Madrid, ES");
        c.insert("arn", "eu-stockholm-1", "ARN - Stockholm, SE");
        c.insert("zrh", "eu-zurich-1", "ZRH - Zurich, CH");
        c.insert("auh", "me-abudhabi-1", "AUH - Abu Dhabi, AE");
        c.insert("dxb", "me-dubai-1", "DXB - Dubai, AE");
        c.insert("cwl", "uk-cardiff-1", "CWL - Cardiff, UK");
        c.insert("ord", "us-chicago-1", "ORD - Chicago, US");
        c.insert("sjc", "us-sanjose-1", "SJC - San Jose, US");
        c
    }
}

/// The identifier of the region that a code stands for, by the standard
/// catalog. The code may be written in any letter case and with white space
/// around it.
pub fn identifier(code: &str) -> (r: Result<String, ConfigError>)
    ensures
        match r {
            Ok(id) => resolve(standard(), code@) == Some(id@),
            Err(e) => resolve(standard(), code@) is None && e == ConfigError::InvalidRegionCode,
        },
{
    Catalog::standard().resolve(code)
}

/// The codes of the regions of the standard catalog, each in capital
/// letters, in the order of its table.
pub fn codes() -> (r: Vec<String>)
    ensures
        r.deep_view() == capital_codes(standard()),
{
    Catalog::standard().codes()
}

/// The lines of a listing of the standard catalog, in the order of its table.
pub fn list() -> (r: Vec<String>)
    ensures
        r.deep_view() == labels(standard()),
{
    Catalog::standard().list()
}

/// What `lookup` finds is the first entry with the key, and it finds nothing
/// only where no entry has the key.
pub proof fn lemma_lookup(table: Seq<RegionView>, key: Seq<char>)
    ensures
        match lookup(table, key) {
            Some(id) => exists|i: int|
                {
                    &&& 0 <= i < table.len()
                    &&& (#[trigger] table[i]).key == key
                    &&& table[i].identifier == id
                    &&& forall|j: int| 0 <= j < i ==> (#[trigger] table[j]).key != key
                },
            None => forall|i: int| 0 <= i < table.len() ==> (#[trigger] table[i]).key != key,
        },
    decreases table.len(),
{
    if table.len() == 0 {
    } else if table[0].key == key {
        assert(table[0].key == key);
    } else {
        let rest = table.drop_first();
        lemma_lookup(rest, key);
        match lookup(rest, key) {
            Some(id) => {
                let i = choose|i: int|
                    {
                        &&& 0 <= i < rest.len()
                        &&& (#[trigger] rest[i]).key == key
                        &&& rest[i].identifier == id
                        &&& forall|j: int| 0 <= j < i ==> (#[trigger] rest[j]).key != key
                    };
                assert(table[i + 1] == rest[i]);
                assert forall|j: int| 0 <= j < i + 1 implies (#[trigger] table[j]).key != key by {
                    if j > 0 {
                        assert(table[j] == rest[j - 1]);
                    }
                }
            },
            None => {
                assert forall|i: int| 0 <= i < table.len() implies (#[trigger] table[i]).key
                    != key by {
                    if i > 0 {
                        assert(table[i] == rest[i - 1]);
                    }
                }
            },
        }
    }
}

/// An entry before which no entry has the same key is the one that its key finds.
pub proof fn lemma_lookup_first(table: Seq<RegionView>, i: int)
    requires
        0 <= i < table.len(),
        forall|j: int| 0 <= j < i ==> (#[trigger] table[j]).key != table[i].key,
    ensures
        lookup(table, table[i].key) == Some(table[i].identifier),
{
    lemma_lookup(table, table[i].key);
}

/// A code that was added to a table which did not know it resolves to the
/// identifier it was added with, in the form in which it was added.
pub proof fn lemma_added_code_resolves(
    table: Seq<RegionView>,
    code: Seq<char>,
    identifier: Seq<char>,
    label: Seq<char>,
)
    requires
        resolve(table, code) is None,
    ensures
        resolve(table.push(region(normalized(code), identifier, label)), code) == Some(identifier),
{
    let key = normalized(code);
    let longer = table.push(region(key, identifier, label));
    lemma_lookup(table, key);
    assert forall|j: int| 0 <= j < table.len() implies (#[trigger] longer[j]).key != key by {
        assert(longer[j] == table[j]);
    }
    lemma_lookup_first(longer, table.len() as int);
}

/// An entry that is added changes nothing for a code that the table knew.
pub proof fn lemma_added_code_keeps(table: Seq<RegionView>, entry: RegionView, code: Seq<char>)
    requires
        resolve(table, code) is Some,
    ensures
        resolve(table.push(entry), code) == resolve(table, code),
{
    let key = normalized(code);
    let longer = table.push(entry);
    lemma_lookup(table, key);
    let i = choose|i: int|
        {
            &&& 0 <= i < table.len()
            &&& (#[trigger] table[i]).key == key
            &&& table[i].identifier == lookup(table, key).unwrap()
            &&& forall|j: int| 0 <= j < i ==> (#[trigger] table[j]).key != key
        };
    assert(longer[i] == table[i]);
    assert forall|j: int| 0 <= j < i implies (#[trigger] longer[j]).key != longer[i].key by {
        assert(longer[j] == table[j]);
    }
    lemma_lookup_first(longer, i);
}

/// Every key of the standard catalog is made of three small ASCII letters.
pub proof fn lemma_standard_keys(i: int)
    requires
        0 <= i < standard().len(),
    ensures
        standard()[i].key.len() == 3,
        forall|k: int| 0 <= k < 3 ==> 'a' <= #[trigger] standard()[i].key[k] <= 'z',
{
    lemma_standard_table();
    assert(small_letters(standard()[i].key));
}

/// No two entries of the standard catalog have the same key.
pub proof fn lemma_standard_keys_distinct(i: int, j: int)
    requires
        0 <= i < j < standard().len(),
    ensures
        standard()[i].key != standard()[j].key,
{
    lemma_standard_table();
    assert(differ(standard()[i].key, standard()[j].key));
}

/// No two entries of the standard catalog have the same identifier: codes
/// and identifiers stand one to one.
pub proof fn lemma_standard_identifiers_distinct(i: int, j: int)
    requires
        0 <= i < j < standard().len(),
    ensures
        standard()[i].identifier != standard()[j].identifier,
{
    lemma_standard_identifiers();
    assert(differ_early(standard()[i].identifier, standard()[j].identifier));
}

/// Every code of the standard catalog resolves to its identifier, in whatever
/// case its letters are written and whatever white space stands around it.
pub proof fn lemma_standard_codes_resolve(
    i: int,
    before: Seq<char>,
    word: Seq<char>,
    after: Seq<char>,
)
    requires
        0 <= i < standard().len(),
        blank(before),
        blank(after),
        ascii_lowered(word) == standard()[i].key,
    ensures
        resolve(standard(), before + word + after) == Some(standard()[i].identifier),
{
    let key = standard()[i].key;
    lemma_standard_keys(i);
    assert(word.len() == 3);
    assert forall|k: int| 0 <= k < 3 implies ('a' <= #[trigger] word[k] <= 'z' || 'A' <= word[k]
        <= 'Z') by {
        assert(lower_char(word[k]) == key[k]);
    }
    assert(is_ascii_chars(word));
    assert(!is_white_space(word[0]));
    assert(!is_white_space(word[2]));
    lemma_trimmed_padded(before, word, after);
    assert(normalized(before + word + after) == key);
    assert forall|j: int| 0 <= j < i implies (#[trigger] standard()[j]).key != key by {
        lemma_standard_keys_distinct(j, i);
    }
    lemma_lookup_first(standard(), i);
}

/// Letter case and white space around a code never change the answer of a
/// table, for a code that is ASCII once it is trimmed: the code, its trimmed
/// form in capital letters and its trimmed form in small letters resolve
/// alike, whether to an identifier or to none.
pub proof fn lemma_case_never_changes_the_answer(table: Seq<RegionView>, code: Seq<char>)
    requires
        is_ascii_chars(trimmed(code)),
    ensures
        resolve(table, ascii_uppered(trimmed(code))) == resolve(table, code),
        resolve(table, ascii_lowered(trimmed(code))) == resolve(table, code),
        resolve(table, normalized(code)) == resolve(table, code),
{
    lemma_normalized_case(code);
}

/// A code of the standard catalog resolves to the same identifier whether it
/// is written in capital letters, in small letters or in both, whatever
/// white space stands around it.
pub proof fn lemma_case_does_not_matter(
    i: int,
    before: Seq<char>,
    word: Seq<char>,
    after: Seq<char>,
)
    requires
        0 <= i < standard().len(),
        blank(before),
        blank(after),
        ascii_lowered(word) == standard()[i].key,
    ensures
        resolve(standard(), before + ascii_uppered(word) + after) == Some(
            standard()[i].identifier,
        ),
        resolve(standard(), before + ascii_lowered(word) + after) == Some(
            standard()[i].identifier,
        ),
        resolve(standard(), before + word + after) == Some(standard()[i].identifier),
{
    lemma_ascii_case(word);
    lemma_standard_codes_resolve(i, before, ascii_uppered(word), after);
    lemma_standard_codes_resolve(i, before, ascii_lowered(word), after);
    lemma_standard_codes_resolve(i, before, word, after);
}

/// Every code that the standard catalog lists resolves to the region of its
/// entry, and it is what the line of that entry in the listing starts with.
pub proof fn lemma_listed_codes_resolve(i: int)
    requires
        0 <= i < standard().len(),
    ensures
        ({
            let code = capital_codes(standard())[i];
            let line = labels(standard())[i];
            &&& code.len() == 3
            &&& forall|k: int| 0 <= k < 3 ==> 'A' <= #[trigger] code[k] <= 'Z'
            &&& line.len() > 3
            &&& line.take(3) == code
            &&& resolve(standard(), code) == Some(standard()[i].identifier)
        }),
{
    let key = standard()[i].key;
    let line = standard()[i].label;
    let code = ascii_uppered(key);
    let none = Seq::<char>::empty();
    lemma_standard_keys(i);
    lemma_standard_labels();
    assert(shows(line, key));
    assert(line.take(3) =~= code);
    assert(ascii_lowered(code) =~= key);
    lemma_standard_codes_resolve(i, none, code, none);
    assert(none + code + none =~= code);
}

/// Whether `key` is made of three small ASCII letters.
spec fn small_letters(key: Seq<char>) -> bool {
    &&& key.len() == 3
    &&& 'a' <= key[0] <= 'z'
    &&& 'a' <= key[1] <= 'z'
    &&& 'a' <= key[2] <= 'z'
}

/// Whether two keys differ in one of their first three letters.
spec fn differ(a: Seq<char>, b: Seq<char>) -> bool {
    a[0] != b[0] || a[1] != b[1] || a[2] != b[2]
}

proof fn lemma_standard_table()
    ensures
        forall|i: int| 0 <= i < standard().len() ==> small_letters(#[trigger] standard()[i].key),
        forall|i: int, j: int|
            0 <= i < j < standard().len() ==> differ(
                #[trigger] standard()[i].key,
                #[trigger] standard()[j].key,
            ),
{
    reveal_strlit("iad");
    reveal_strlit("lon");
    reveal_strlit("phx");
    reveal_strlit("fra");
    reveal_strlit("syd");
    reveal_strlit("mel");
    reveal_strlit("gru");
    reveal_strlit("vcp");
    reveal_strlit("yul");
    reveal_strlit("yyz");
    reveal_strlit("scl");
    reveal_strlit("vap");
    reveal_strlit("bog");
    reveal_strlit("cdg");
    reveal_strlit("mrs");
    reveal_strlit("hyd");
    reveal_strlit("bom");
    reveal_strlit("mtz");
    reveal_strlit("lin");
    reveal_strlit("kix");
    reveal_strlit("nrt");
    reveal_strlit("qro");
    reveal_strlit("mty");
    reveal_strlit("ams");
    reveal_strlit("jed");
    reveal_strlit("beg");
    reveal_strlit("sin");
    reveal_strlit("jnb");
    reveal_strlit("icn");
    reveal_strlit("yny");
    reveal_strlit("mad");
    reveal_strlit("arn");
    reveal_strlit("zrh");
    reveal_strlit("auh");
    reveal_strlit("dxb");
    reveal_strlit("cwl");
    reveal_strlit("ord");
    reveal_strlit("sjc");
}
/// Whether two identifiers differ in one of their first six characters.
spec fn differ_early(a: Seq<char>, b: Seq<char>) -> bool {
    a[0] != b[0] || a[1] != b[1] || a[2] != b[2] || a[3] != b[3] || a[4] != b[4] || a[5] != b[5]
}

proof fn lemma_standard_identifiers()
    ensures
        forall|i: int, j: int|
            0 <= i < j < standard().len() ==> differ_early(
                #[trigger] standard()[i].identifier,
                #[trigger] standard()[j].identifier,
            ),
{
    reveal_strlit("us-ashburn-1");
    reveal_strlit("uk-london-1");
    reveal_strlit("us-phoenix-1");
    reveal_strlit("eu-frankfurt-1");
    reveal_strlit("ap-sydney-1");
    reveal_strlit("ap-melbourne-1");
    reveal_strlit("sa-saopaulo-1");
    reveal_strlit("sa-vinhedo-1");
    reveal_strlit("ca-montreal-1");
    reveal_strlit("ca-toronto-1");
    reveal_strlit("sa-santiago-1");
    reveal_strlit("sa-valparaiso-1");
    reveal_strlit("sa-bogota-1");
    reveal_strlit("eu-paris-1");
    reveal_strlit("eu-marseille-1");
    reveal_strlit("ap-hyderabad-1");
    reveal_strlit("ap-mumbai-1");
    reveal_strlit("il-jerusalem-1");
    reveal_strlit("eu-milan-1");
    reveal_strlit("ap-osaka-1");
    reveal_strlit("ap-tokyo-1");
    reveal_strlit("mx-queretaro-1");
    reveal_strlit("mx-monterrey-1");
    reveal_strlit("eu-amsterdam-1");
    reveal_strlit("me-jeddah-1");
    reveal_strlit("eu-jovanovac-1");
    reveal_strlit("ap-singapore-1");
    reveal_strlit("af-johannesburg-1");
    reveal_strlit("ap-seoul-1");
    reveal_strlit("ap-chuncheon-1");
    reveal_strlit("eu-madrid-1");
    reveal_strlit("eu-stockholm-1");
    reveal_strlit("eu-zurich-1");
    reveal_strlit("me-abudhabi-1");
    reveal_strlit("me-dubai-1");
    reveal_strlit("uk-cardiff-1");
    reveal_strlit("us-chicago-1");
    reveal_strlit("us-sanjose-1");
}

/// Whether `label` starts with the letters of `key`, as capital letters.
spec fn shows(label: Seq<char>, key: Seq<char>) -> bool {
    &&& label.len() > 3
    &&& key.len() == 3
    &&& 'A' <= label[0] <= 'Z' && lower_char(label[0]) == key[0]
    &&& 'A' <= label[1] <= 'Z' && lower_char(label[1]) == key[1]
    &&& 'A' <= label[2] <= 'Z' && lower_char(label[2]) == key[2]
}

proof fn lemma_standard_labels()
    ensures
        forall|i: int|
            0 <= i < standard().len() ==> shows(
                (#[trigger] standard()[i]).label,
                standard()[i].key,
            ),
{
    reveal_strlit("iad");
    reveal_strlit("IAD - Ashburn, US");
    reveal_strlit("lon");
    reveal_strlit("LON - London, UK");
    reveal_strlit("phx");
    reveal_strlit("PHX - Phoenix, US");
    reveal_strlit("fra");
    reveal_strlit("FRA - Frankfurt, DE");
    reveal_strlit("syd");
    reveal_strlit("SYD - Sydney, AU");
    reveal_strlit("mel");
    reveal_strlit("MEL - Melbourne, AU");
    reveal_strlit("gru");
    reveal_strlit("GRU - Sao Paulo, BR");
    reveal_strlit("vcp");
    reveal_strlit("VCP - Vinhedo, BR");
    reveal_strlit("yul");
    reveal_strlit("YUL - Montreal, CA");
    reveal_strlit("yyz");
    reveal_strlit("YYZ - Toronto, CA");
    reveal_strlit("scl");
    reveal_strlit("SCL - Santiago, CL");
    reveal_strlit("vap");
    reveal_strlit("VAP - Valparaiso, CL");
    reveal_strlit("bog");
    reveal_strlit("BOG - Bogota, CO");
    reveal_strlit("cdg");
    reveal_strlit("CDG - Paris, FR");
    reveal_strlit("mrs");
    reveal_strlit("MRS - Marseille, FR");
    reveal_strlit("hyd");
    reveal_strlit("HYD - Hyderabad, IN");
    reveal_strlit("bom");
    reveal_strlit("BOM - Mumbai, IN");
    reveal_strlit("mtz");
    reveal_strlit("MTZ - Jerusalem, IL");
    reveal_strlit("lin");
    reveal_strlit("LIN - Milan, IT");
    reveal_strlit("kix");
    reveal_strlit("KIX - Osaka, JP");
    reveal_strlit("nrt");
    reveal_strlit("NRT - Tokyo, JP");
    reveal_strlit("qro");
    reveal_strlit("QRO - Queretaro, MX");
    reveal_strlit("mty");
    reveal_strlit("MTY - Monterrey, MX");
    reveal_strlit("ams");
    reveal_strlit("AMS - Amsterdam, NL");
    reveal_strlit("jed");
    reveal_strlit("JED - Jeddah, SA");
    reveal_strlit("beg");
    reveal_strlit("BEG - Jovanovac, RS");
    reveal_strlit("sin");
    reveal_strlit("SIN - Singapore, SG");
    reveal_strlit("jnb");
    reveal_strlit("JNB - Johannesburg, ZA");
    reveal_strlit("icn");
    reveal_strlit("ICN - Seoul, KR");
    reveal_strlit("yny");
    reveal_strlit("YNY - Chuncheon, KR");
    reveal_strlit("mad");
    reveal_strlit("MAD - Madrid, ES");
    reveal_strlit("arn");
    reveal_strlit("ARN - Stockholm, SE");
    reveal_strlit("zrh");
    reveal_strlit("ZRH - Zurich, CH");
    reveal_strlit("auh");
    reveal_strlit("AUH - Abu Dhabi, AE");
    reveal_strlit("dxb");
    reveal_strlit("DXB - Dubai, AE");
    reveal_strlit("cwl");
    reveal_strlit("CWL - Cardiff, UK");
    reveal_strlit("ord");
    reveal_strlit("ORD - Chicago, US");
    reveal_strlit("sjc");
    reveal_strlit("SJC - San Jose, US");
}

} // verus!
