//! Languages by their ISO 639 codes.

use vstd::prelude::*;
use vstd::string::*;

use crate::text::same_text;

verus! {

/// A language: its bibliographic code (ISO 639-2/B, the one that is stored),
/// its terminological code (ISO 639-2/T), its two-letter code (the first code
/// again where it has none) and its name.
pub type Language = (&'static str, &'static str, &'static str, &'static str);

/// The languages of ISO 639-2, by name. The codes set aside for local use are
/// no languages and left out.
pub const LANGUAGES: [Language; 486] = [
    ("abk", "abk", "ab", "Abkhazian"),
    ("ace", "ace", "ace", "Achinese"),
    ("ach", "ach", "ach", "Acoli"),
    ("ada", "ada", "ada", "Adangme"),
    ("ady", "ady", "ady", "Adyghe"),
    ("aar", "aar", "aa", "Afar"),
    ("afh", "afh", "afh", "Afrihili"),
    ("afr", "afr", "af", "Afrikaans"),
    ("afa", "afa", "afa", "Afro-Asiatic languages"),
    ("ain", "ain", "ain", "Ainu"),
    ("aka", "aka", "ak", "Akan"),
    ("akk", "akk", "akk", "Akkadian"),
    ("alb", "sqi", "sq", "Albanian"),
    ("ale", "ale", "ale", "Aleut"),
    ("alg", "alg", "alg", "Algonquian languages"),
    ("tut", "tut", "tut", "Altaic languages"),
    ("amh", "amh", "am", "Amharic"),
    ("grc", "grc", "grc", "Ancient Greek"),
    ("anp", "anp", "anp", "Angika"),
    ("apa", "apa", "apa", "Apache languages"),
    ("ara", "ara", "ar", "Arabic"),
    ("arg", "arg", "an", "Aragonese"),
    ("arc", "arc", "arc", "Aramaic"),
    ("arp", "arp", "arp", "Arapaho"),
    ("arw", "arw", "arw", "Arawak"),
    ("arm", "hye", "hy", "Armenian"),
    ("rup", "rup", "rup", "Aromanian"),
    ("art", "art", "art", "Artificial languages"),
    ("asm", "asm", "as", "Assamese"),
    ("ast", "ast", "ast", "Asturian"),
    ("ath", "ath", "ath", "Athapascan languages"),
    ("aus", "aus", "aus", "Australian languages"),
    ("map", "map", "map", "Austronesian languages"),
    ("ava", "ava", "av", "Avaric"),
    ("ave", "ave", "ae", "Avestan"),
    ("awa", "awa", "awa", "Awadhi"),
    ("aym", "aym", "ay", "Aymara"),
    ("aze", "aze", "az", "Azerbaijani"),
    ("ban", "ban", "ban", "Balinese"),
    ("bat", "bat", "bat", "Baltic languages"),
    ("bal", "bal", "bal", "Baluchi"),
    ("bam", "bam", "bm", "Bambara"),
    ("bai", "bai", "bai", "Bamileke languages"),
    ("bad", "bad", "bad", "Banda languages"),
    ("bnt", "bnt", "bnt", "Bantu languages"),
    ("bas", "bas", "bas", "Basa"),
    ("bak", "bak", "ba", "Bashkir"),
    ("baq", "eus", "eu", "Basque"),
    ("btk", "btk", "btk", "Batak languages"),
    ("bej", "bej", "bej", "Beja"),
    ("bel", "bel", "be", "Belarusian"),
    ("bem", "bem", "bem", "Bemba"),
    ("ben", "ben", "bn", "Bengali"),
    ("ber", "ber", "ber", "Berber languages"),
    ("bho", "bho", "bho", "Bhojpuri"),
    ("bih", "bih", "bh", "Bihari languages"),
    ("bik", "bik", "bik", "Bikol"),
    ("bin", "bin", "bin", "Bini"),
    ("bis", "bis", "bi", "Bislama"),
    ("byn", "byn", "byn", "Blin"),
    ("zbl", "zbl", "zbl", "Blissymbols"),
    ("bos", "bos", "bs", "Bosnian"),
    ("bra", "bra", "bra", "Braj"),
    ("bre", "bre", "br", "Breton"),
    ("bug", "bug", "bug", "Buginese"),
    ("bul", "bul", "bg", "Bulgarian"),
    ("bua", "bua", "bua", "Buriat"),
    ("bur", "mya", "my", "Burmese"),
    ("cad", "cad", "cad", "Caddo"),
    ("cat", "cat", "ca", "Catalan"),
    ("cau", "cau", "cau", "Caucasian languages"),
    ("ceb", "ceb", "ceb", "Cebuano"),
    ("cel", "cel", "cel", "Celtic languages"),
    ("cai", "cai", "cai", "Central American Indian languages"),
    ("chg", "chg", "chg", "Chagatai"),
    ("cmc", "cmc", "cmc", "Chamic languages"),
    ("cha", "cha", "ch", "Chamorro"),
    ("che", "che", "ce", "Chechen"),
    ("chr", "chr", "chr", "Cherokee"),
    ("chy", "chy", "chy", "Cheyenne"),
    ("chb", "chb", "chb", "Chibcha"),
    ("nya", "nya", "ny", "Chichewa"),
    ("chi", "zho", "zh", "Chinese"),
    ("chn", "chn", "chn", "Chinook jargon"),
    ("chp", "chp", "chp", "Chipewyan"),
    ("cho", "cho", "cho", "Choctaw"),
    ("chu", "chu", "cu", "Church Slavic"),
    ("chk", "chk", "chk", "Chuukese"),
    ("chv", "chv", "cv", "Chuvash"),
    ("nwc", "nwc", "nwc", "Classical Newari"),
    ("syc", "syc", "syc", "Classical Syriac"),
    ("cop", "cop", "cop", "Coptic"),
    ("cor", "cor", "kw", "Cornish"),
    ("cos", "cos", "co", "Corsican"),
    ("cre", "cre", "cr", "Cree"),
    ("mus", "mus", "mus", "Creek"),
    ("crp", "crp", "crp", "Creoles and pidgins"),
    ("crh", "crh", "crh", "Crimean Tatar"),
    ("hrv", "hrv", "hr", "Croatian"),
    ("cus", "cus", "cus", "Cushitic languages"),
    ("cze", "ces", "cs", "Czech"),
    ("dak", "dak", "dak", "Dakota"),
    ("dan", "dan", "da", "Danish"),
    ("dar", "dar", "dar", "Dargwa"),
    ("del", "del", "del", "Delaware"),
    ("din", "din", "din", "Dinka"),
    ("div", "div", "dv", "Divehi"),
    ("doi", "doi", "doi", "Dogri"),
    ("dra", "dra", "dra", "Dravidian languages"),
    ("dua", "dua", "dua", "Duala"),
    ("dut", "nld", "nl", "Dutch"),
    ("dyu", "dyu", "dyu", "Dyula"),
    ("dzo", "dzo", "dz", "Dzongkha"),
    ("frs", "frs", "frs", "Eastern Frisian"),
    ("efi", "efi", "efi", "Efik"),
    ("egy", "egy", "egy", "Egyptian (Ancient)"),
    ("eka", "eka", "eka", "Ekajuk"),
    ("elx", "elx", "elx", "Elamite"),
    ("eng", "eng", "en", "English"),
    ("cpe", "cpe", "cpe", "English-based creoles and pidgins"),
    ("myv", "myv", "myv", "Erzya"),
    ("epo", "epo", "eo", "Esperanto"),
    ("est", "est", "et", "Estonian"),
    ("ewe", "ewe", "ee", "Ewe"),
    ("ewo", "ewo", "ewo", "Ewondo"),
    ("fan", "fan", "fan", "Fang"),
    ("fat", "fat", "fat", "Fanti"),
    ("fao", "fao", "fo", "Faroese"),
    ("fij", "fij", "fj", "Fijian"),
    ("fil", "fil", "fil", "Filipino"),
    ("fin", "fin", "fi", "Finnish"),
    ("fiu", "fiu", "fiu", "Finno-Ugrian languages"),
    ("fon", "fon", "fon", "Fon"),
    ("fre", "fra", "fr", "French"),
    ("cpf", "cpf", "cpf", "French-based creoles and pidgins"),
    ("fur", "fur", "fur", "Friulian"),
    ("ful", "ful", "ff", "Fulah"),
    ("gaa", "gaa", "gaa", "Ga"),
    ("gla", "gla", "gd", "Gaelic"),
    ("car", "car", "car", "Galibi Carib"),
    ("glg", "glg", "gl", "Galician"),
    ("lug", "lug", "lg", "Ganda"),
    ("gay", "gay", "gay", "Gayo"),
    ("gba", "gba", "gba", "Gbaya"),
    ("gez", "gez", "gez", "Geez"),
    ("geo", "kat", "ka", "Georgian"),
    ("ger", "deu", "de", "German"),
    ("gem", "gem", "gem", "Germanic languages"),
    ("gil", "gil", "gil", "Gilbertese"),
    ("gon", "gon", "gon", "Gondi"),
    ("gor", "gor", "gor", "Gorontalo"),
    ("got", "got", "got", "Gothic"),
    ("grb", "grb", "grb", "Grebo"),
    ("gre", "ell", "el", "Greek"),
    ("grn", "grn", "gn", "Guarani"),
    ("guj", "guj", "gu", "Gujarati"),
    ("gwi", "gwi", "gwi", "Gwich'in"),
    ("hai", "hai", "hai", "Haida"),
    ("hat", "hat", "ht", "Haitian"),
    ("hau", "hau", "ha", "Hausa"),
    ("haw", "haw", "haw", "Hawaiian"),
    ("heb", "heb", "he", "Hebrew"),
    ("her", "her", "hz", "Herero"),
    ("hil", "hil", "hil", "Hiligaynon"),
    ("him", "him", "him", "Himachali languages"),
    ("hin", "hin", "hi", "Hindi"),
    ("hmo", "hmo", "ho", "Hiri Motu"),
    ("hit", "hit", "hit", "Hittite"),
    ("hmn", "hmn", "hmn", "Hmong"),
    ("hun", "hun", "hu", "Hungarian"),
    ("hup", "hup", "hup", "Hupa"),
    ("iba", "iba", "iba", "Iban"),
    ("ice", "isl", "is", "Icelandic"),
    ("ido", "ido", "io", "Ido"),
    ("ibo", "ibo", "ig", "Igbo"),
    ("ijo", "ijo", "ijo", "Ijo languages"),
    ("ilo", "ilo", "ilo", "Iloko"),
    ("smn", "smn", "smn", "Inari Sami"),
    ("inc", "inc", "inc", "Indic languages"),
    ("ine", "ine", "ine", "Indo-European languages"),
    ("ind", "ind", "id", "Indonesian"),
    ("inh", "inh", "inh", "Ingush"),
    ("ina", "ina", "ia", "Interlingua"),
    ("ile", "ile", "ie", "Interlingue"),
    ("iku", "iku", "iu", "Inuktitut"),
    ("ipk", "ipk", "ik", "Inupiaq"),
    ("ira", "ira", "ira", "Iranian languages"),
    ("gle", "gle", "ga", "Irish"),
    ("iro", "iro", "iro", "Iroquoian languages"),
    ("ita", "ita", "it", "Italian"),
    ("jpn", "jpn", "ja", "Japanese"),
    ("jav", "jav", "jv", "Javanese"),
    ("jrb", "jrb", "jrb", "Judeo-Arabic"),
    ("jpr", "jpr", "jpr", "Judeo-Persian"),
    ("kbd", "kbd", "kbd", "Kabardian"),
    ("kab", "kab", "kab", "Kabyle"),
    ("kac", "kac", "kac", "Kachin"),
    ("kal", "kal", "kl", "Kalaallisut"),
    ("xal", "xal", "xal", "Kalmyk"),
    ("kam", "kam", "kam", "Kamba"),
    ("kan", "kan", "kn", "Kannada"),
    ("kau", "kau", "kr", "Kanuri"),
    ("kaa", "kaa", "kaa", "Kara-Kalpak"),
    ("krc", "krc", "krc", "Karachay-Balkar"),
    ("krl", "krl", "krl", "Karelian"),
    ("kar", "kar", "kar", "Karen languages"),
    ("kas", "kas", "ks", "Kashmiri"),
    ("csb", "csb", "csb", "Kashubian"),
    ("kaw", "kaw", "kaw", "Kawi"),
    ("kaz", "kaz", "kk", "Kazakh"),
    ("kha", "kha", "kha", "Khasi"),
    ("khm", "khm", "km", "Khmer"),
    ("khi", "khi", "khi", "Khoisan languages"),
    ("kho", "kho", "kho", "Khotanese"),
    ("kik", "kik", "ki", "Kikuyu"),
    ("kmb", "kmb", "kmb", "Kimbundu"),
    ("kin", "kin", "rw", "Kinyarwanda"),
    ("kir", "kir", "ky", "Kirghiz"),
    ("tlh", "tlh", "tlh", "Klingon"),
    ("kom", "kom", "kv", "Komi"),
    ("kon", "kon", "kg", "Kongo"),
    ("kok", "kok", "kok", "Konkani"),
    ("kor", "kor", "ko", "Korean"),
    ("kos", "kos", "kos", "Kosraean"),
    ("kpe", "kpe", "kpe", "Kpelle"),
    ("kro", "kro", "kro", "Kru languages"),
    ("kua", "kua", "kj", "Kuanyama"),
    ("kum", "kum", "kum", "Kumyk"),
    ("kur", "kur", "ku", "Kurdish"),
    ("kru", "kru", "kru", "Kurukh"),
    ("kut", "kut", "kut", "Kutenai"),
    ("lad", "lad", "lad", "Ladino"),
    ("lah", "lah", "lah", "Lahnda"),
    ("lam", "lam", "lam", "Lamba"),
    ("day", "day", "day", "Land Dayak languages"),
    ("lao", "lao", "lo", "Lao"),
    ("lat", "lat", "la", "Latin"),
    ("lav", "lav", "lv", "Latvian"),
    ("lez", "lez", "lez", "Lezghian"),
    ("lim", "lim", "li", "Limburgan"),
    ("lin", "lin", "ln", "Lingala"),
    ("lit", "lit", "lt", "Lithuanian"),
    ("jbo", "jbo", "jbo", "Lojban"),
    ("nds", "nds", "nds", "Low German"),
    ("dsb", "dsb", "dsb", "Lower Sorbian"),
    ("loz", "loz", "loz", "Lozi"),
    ("lub", "lub", "lu", "Luba-Katanga"),
    ("lua", "lua", "lua", "Luba-Lulua"),
    ("lui", "lui", "lui", "Luiseno"),
    ("smj", "smj", "smj", "Lule Sami"),
    ("lun", "lun", "lun", "Lunda"),
    ("luo", "luo", "luo", "Luo (Kenya and Tanzania)"),
    ("lus", "lus", "lus", "Lushai"),
    ("ltz", "ltz", "lb", "Luxembourgish"),
    ("mac", "mkd", "mk", "Macedonian"),
    ("mad", "mad", "mad", "Madurese"),
    ("mag", "mag", "mag", "Magahi"),
    ("mai", "mai", "mai", "Maithili"),
    ("mak", "mak", "mak", "Makasar"),
    ("mlg", "mlg", "mg", "Malagasy"),
    ("may", "msa", "ms", "Malay"),
    ("mal", "mal", "ml", "Malayalam"),
    ("mlt", "mlt", "mt", "Maltese"),
    ("mnc", "mnc", "mnc", "Manchu"),
    ("mdr", "mdr", "mdr", "Mandar"),
    ("man", "man", "man", "Mandingo"),
    ("mni", "mni", "mni", "Manipuri"),
    ("mno", "mno", "mno", "Manobo languages"),
    ("glv", "glv", "gv", "Manx"),
    ("mao", "mri", "mi", "Maori"),
    ("arn", "arn", "arn", "Mapudungun"),
    ("mar", "mar", "mr", "Marathi"),
    ("chm", "chm", "chm", "Mari"),
    ("mah", "mah", "mh", "Marshallese"),
    ("mwr", "mwr", "mwr", "Marwari"),
    ("mas", "mas", "mas", "Masai"),
    ("myn", "myn", "myn", "Mayan languages"),
    ("men", "men", "men", "Mende"),
    ("mic", "mic", "mic", "Mi'kmaq"),
    ("dum", "dum", "dum", "Middle Dutch"),
    ("enm", "enm", "enm", "Middle English"),
    ("frm", "frm", "frm", "Middle French"),
    ("gmh", "gmh", "gmh", "Middle High German"),
    ("mga", "mga", "mga", "Middle Irish"),
    ("min", "min", "min", "Minangkabau"),
    ("mwl", "mwl", "mwl", "Mirandese"),
    ("moh", "moh", "moh", "Mohawk"),
    ("mdf", "mdf", "mdf", "Moksha"),
    ("mkh", "mkh", "mkh", "Mon-Khmer languages"),
    ("lol", "lol", "lol", "Mongo"),
    ("mon", "mon", "mn", "Mongolian"),
    ("cnr", "cnr", "cnr", "Montenegrin"),
    ("mos", "mos", "mos", "Mossi"),
    ("mul", "mul", "mul", "Multiple languages"),
    ("mun", "mun", "mun", "Munda languages"),
    ("nqo", "nqo", "nqo", "N'Ko"),
    ("nah", "nah", "nah", "Nahuatl languages"),
    ("nau", "nau", "na", "Nauru"),
    ("nav", "nav", "nv", "Navajo"),
    ("ndo", "ndo", "ng", "Ndonga"),
    ("nap", "nap", "nap", "Neapolitan"),
    ("new", "new", "new", "Nepal Bhasa"),
    ("nep", "nep", "ne", "Nepali"),
    ("nia", "nia", "nia", "Nias"),
    ("nic", "nic", "nic", "Niger-Kordofanian languages"),
    ("ssa", "ssa", "ssa", "Nilo-Saharan languages"),
    ("niu", "niu", "niu", "Niuean"),
    ("zxx", "zxx", "zxx", "No linguistic content"),
    ("nog", "nog", "nog", "Nogai"),
    ("nai", "nai", "nai", "North American Indian languages"),
    ("nde", "nde", "nd", "North Ndebele"),
    ("frr", "frr", "frr", "Northern Frisian"),
    ("sme", "sme", "se", "Northern Sami"),
    ("nor", "nor", "no", "Norwegian"),
    ("nob", "nob", "nb", "Norwegian Bokmål"),
    ("nno", "nno", "nn", "Norwegian Nynorsk"),
    ("nub", "nub", "nub", "Nubian languages"),
    ("nym", "nym", "nym", "Nyamwezi"),
    ("nyn", "nyn", "nyn", "Nyankole"),
    ("nyo", "nyo", "nyo", "Nyoro"),
    ("nzi", "nzi", "nzi", "Nzima"),
    ("oci", "oci", "oc", "Occitan"),
    ("oji", "oji", "oj", "Ojibwa"),
    ("ang", "ang", "ang", "Old English"),
    ("fro", "fro", "fro", "Old French"),
    ("goh", "goh", "goh", "Old High German"),
    ("sga", "sga", "sga", "Old Irish"),
    ("non", "non", "non", "Old Norse"),
    ("peo", "peo", "peo", "Old Persian"),
    ("pro", "pro", "pro", "Old Provençal"),
    ("ori", "ori", "or", "Oriya"),
    ("orm", "orm", "om", "Oromo"),
    ("osa", "osa", "osa", "Osage"),
    ("oss", "oss", "os", "Ossetian"),
    ("oto", "oto", "oto", "Otomian languages"),
    ("ota", "ota", "ota", "Ottoman Turkish"),
    ("pal", "pal", "pal", "Pahlavi"),
    ("pau", "pau", "pau", "Palauan"),
    ("pli", "pli", "pi", "Pali"),
    ("pam", "pam", "pam", "Pampanga"),
    ("pag", "pag", "pag", "Pangasinan"),
    ("pan", "pan", "pa", "Panjabi"),
    ("pap", "pap", "pap", "Papiamento"),
    ("paa", "paa", "paa", "Papuan languages"),
    ("nso", "nso", "nso", "Pedi"),
    ("per", "fas", "fa", "Persian"),
    ("phi", "phi", "phi", "Philippine languages"),
    ("phn", "phn", "phn", "Phoenician"),
    ("pon", "pon", "pon", "Pohnpeian"),
    ("pol", "pol", "pl", "Polish"),
    ("por", "por", "pt", "Portuguese"),
    ("cpp", "cpp", "cpp", "Portuguese-based creoles and pidgins"),
    ("pra", "pra", "pra", "Prakrit languages"),
    ("pus", "pus", "ps", "Pushto"),
    ("que", "que", "qu", "Quechua"),
    ("raj", "raj", "raj", "Rajasthani"),
    ("rap", "rap", "rap", "Rapanui"),
    ("rar", "rar", "rar", "Rarotongan"),
    ("roa", "roa", "roa", "Romance languages"),
    ("rum", "ron", "ro", "Romanian"),
    ("roh", "roh", "rm", "Romansh"),
    ("rom", "rom", "rom", "Romany"),
    ("run", "run", "rn", "Rundi"),
    ("rus", "rus", "ru", "Russian"),
    ("sal", "sal", "sal", "Salishan languages"),
    ("sam", "sam", "sam", "Samaritan Aramaic"),
    ("smi", "smi", "smi", "Sami languages"),
    ("smo", "smo", "sm", "Samoan"),
    ("sad", "sad", "sad", "Sandawe"),
    ("sag", "sag", "sg", "Sango"),
    ("san", "san", "sa", "Sanskrit"),
    ("sat", "sat", "sat", "Santali"),
    ("srd", "srd", "sc", "Sardinian"),
    ("sas", "sas", "sas", "Sasak"),
    ("sco", "sco", "sco", "Scots"),
    ("sel", "sel", "sel", "Selkup"),
    ("sem", "sem", "sem", "Semitic languages"),
    ("srp", "srp", "sr", "Serbian"),
    ("srr", "srr", "srr", "Serer"),
    ("shn", "shn", "shn", "Shan"),
    ("sna", "sna", "sn", "Shona"),
    ("iii", "iii", "ii", "Sichuan Yi"),
    ("scn", "scn", "scn", "Sicilian"),
    ("sid", "sid", "sid", "Sidamo"),
    ("sgn", "sgn", "sgn", "Sign languages"),
    ("bla", "bla", "bla", "Siksika"),
    ("snd", "snd", "sd", "Sindhi"),
    ("sin", "sin", "si", "Sinhala"),
    ("sit", "sit", "sit", "Sino-Tibetan languages"),
    ("sio", "sio", "sio", "Siouan languages"),
    ("sms", "sms", "sms", "Skolt Sami"),
    ("den", "den", "den", "Slave (Athapascan)"),
    ("sla", "sla", "sla", "Slavic languages"),
    ("slo", "slk", "sk", "Slovak"),
    ("slv", "slv", "sl", "Slovenian"),
    ("sog", "sog", "sog", "Sogdian"),
    ("som", "som", "so", "Somali"),
    ("son", "son", "son", "Songhai languages"),
    ("snk", "snk", "snk", "Soninke"),
    ("wen", "wen", "wen", "Sorbian languages"),
    ("sai", "sai", "sai", "South American Indian languages"),
    ("nbl", "nbl", "nr", "South Ndebele"),
    ("alt", "alt", "alt", "Southern Altai"),
    ("sma", "sma", "sma", "Southern Sami"),
    ("sot", "sot", "st", "Southern Sotho"),
    ("spa", "spa", "es", "Spanish"),
    ("srn", "srn", "srn", "Sranan Tongo"),
    ("zgh", "zgh", "zgh", "Standard Moroccan Tamazight"),
    ("suk", "suk", "suk", "Sukuma"),
    ("sux", "sux", "sux", "Sumerian"),
    ("sun", "sun", "su", "Sundanese"),
    ("sus", "sus", "sus", "Susu"),
    ("swa", "swa", "sw", "Swahili"),
    ("ssw", "ssw", "ss", "Swati"),
    ("swe", "swe", "sv", "Swedish"),
    ("gsw", "gsw", "gsw", "Swiss German"),
    ("syr", "syr", "syr", "Syriac"),
    ("tgl", "tgl", "tl", "Tagalog"),
    ("tah", "tah", "ty", "Tahitian"),
    ("tai", "tai", "tai", "Tai languages"),
    ("tgk", "tgk", "tg", "Tajik"),
    ("tmh", "tmh", "tmh", "Tamashek"),
    ("tam", "tam", "ta", "Tamil"),
    ("tat", "tat", "tt", "Tatar"),
    ("tel", "tel", "te", "Telugu"),
    ("ter", "ter", "ter", "Tereno"),
    ("tet", "tet", "tet", "Tetum"),
    ("tha", "tha", "th", "Thai"),
    ("tib", "bod", "bo", "Tibetan"),
    ("tig", "tig", "tig", "Tigre"),
    ("tir", "tir", "ti", "Tigrinya"),
    ("tem", "tem", "tem", "Timne"),
    ("tiv", "tiv", "tiv", "Tiv"),
    ("dgr", "dgr", "dgr", "Tlicho"),
    ("tli", "tli", "tli", "Tlingit"),
    ("tpi", "tpi", "tpi", "Tok Pisin"),
    ("tkl", "tkl", "tkl", "Tokelau"),
    ("tog", "tog", "tog", "Tonga (Nyasa)"),
    ("ton", "ton", "to", "Tonga (Tonga Islands)"),
    ("tsi", "tsi", "tsi", "Tsimshian"),
    ("tso", "tso", "ts", "Tsonga"),
    ("tsn", "tsn", "tn", "Tswana"),
    ("tum", "tum", "tum", "Tumbuka"),
    ("tup", "tup", "tup", "Tupi languages"),
    ("tur", "tur", "tr", "Turkish"),
    ("tuk", "tuk", "tk", "Turkmen"),
    ("tvl", "tvl", "tvl", "Tuvalu"),
    ("tyv", "tyv", "tyv", "Tuvinian"),
    ("twi", "twi", "tw", "Twi"),
    ("udm", "udm", "udm", "Udmurt"),
    ("uga", "uga", "uga", "Ugaritic"),
    ("uig", "uig", "ug", "Uighur"),
    ("ukr", "ukr", "uk", "Ukrainian"),
    ("umb", "umb", "umb", "Umbundu"),
    ("mis", "mis", "mis", "Uncoded languages"),
    ("und", "und", "und", "Undetermined"),
    ("hsb", "hsb", "hsb", "Upper Sorbian"),
    ("urd", "urd", "ur", "Urdu"),
    ("uzb", "uzb", "uz", "Uzbek"),
    ("vai", "vai", "vai", "Vai"),
    ("ven", "ven", "ve", "Venda"),
    ("vie", "vie", "vi", "Vietnamese"),
    ("vol", "vol", "vo", "Volapük"),
    ("vot", "vot", "vot", "Votic"),
    ("wak", "wak", "wak", "Wakashan languages"),
    ("wln", "wln", "wa", "Walloon"),
    ("war", "war", "war", "Waray"),
    ("was", "was", "was", "Washo"),
    ("wel", "cym", "cy", "Welsh"),
    ("fry", "fry", "fy", "Western Frisian"),
    ("wal", "wal", "wal", "Wolaitta"),
    ("wol", "wol", "wo", "Wolof"),
    ("xho", "xho", "xh", "Xhosa"),
    ("sah", "sah", "sah", "Yakut"),
    ("yao", "yao", "yao", "Yao"),
    ("yap", "yap", "yap", "Yapese"),
    ("yid", "yid", "yi", "Yiddish"),
    ("yor", "yor", "yo", "Yoruba"),
    ("ypk", "ypk", "ypk", "Yupik languages"),
    ("znd", "znd", "znd", "Zande languages"),
    ("zap", "zap", "zap", "Zapotec"),
    ("zza", "zza", "zza", "Zaza"),
    ("zen", "zen", "zen", "Zenaga"),
    ("zha", "zha", "za", "Zhuang"),
    ("zul", "zul", "zu", "Zulu"),
    ("zun", "zun", "zun", "Zuni"),
];

/// Whether a text is one of a language's codes.
pub open spec fn has_code(language: Language, code: Seq<char>) -> bool {
    language.0@ == code || language.1@ == code || language.2@ == code
}

/// The first language of a list with a code.
pub open spec fn first_with(languages: Seq<Language>, code: Seq<char>) -> Option<Language>
    decreases languages.len(),
{
    if languages.len() == 0 {
        None
    } else if has_code(languages[0], code) {
        Some(languages[0])
    } else {
        first_with(languages.drop_first(), code)
    }
}

/// The code under which a language is stored; an unknown code stays.
pub open spec fn canonical_code(code: Seq<char>) -> Seq<char> {
    match first_with(LANGUAGES@, code) {
        Some(language) => language.0@,
        None => code,
    }
}

/// The name of a language.
pub open spec fn name_of(code: Seq<char>) -> Option<&'static str> {
    match first_with(LANGUAGES@, code) {
        Some(language) => Some(language.3),
        None => None,
    }
}

/// The first language of a list with a code.
pub fn find(languages: &[Language], code: &str) -> (found: Option<Language>)
    ensures
        found == first_with(languages@, code@),
{
    let mut i: usize = 0;
    assert(languages@.skip(0) =~= languages@);
    while i < languages.len()
        invariant
            i <= languages@.len(),
            first_with(languages@.skip(i as int), code@) == first_with(languages@, code@),
        decreases languages@.len() - i,
    {
        let language: Language = languages[i];
        if same_text(language.0, code) || same_text(language.1, code) || same_text(
            language.2,
            code,
        ) {
            return Some(language);
        }
        assert(languages@.skip(i as int).drop_first() =~= languages@.skip(i + 1));
        i += 1;
    }
    None
}

/// The code under which a language is stored; an unknown code stays.
pub fn canonical(code: &str) -> (stored: String)
    ensures
        stored@ == canonical_code(code@),
{
    match find(&LANGUAGES, code) {
        Some(language) => language.0.to_owned(),
        None => code.to_owned(),
    }
}

/// The name of a language.
pub fn name(code: &str) -> (name: Option<&'static str>)
    ensures
        name == name_of(code@),
{
    match find(&LANGUAGES, code) {
        Some(language) => Some(language.3),
        None => None,
    }
}

/// A code means the language that lists it: one that no language lists stays as
/// it is and has no name, and one that is listed becomes the first code of a
/// language that lists it.
pub proof fn law_codes_mean_their_language(code: Seq<char>)
    ensures
        match name_of(code) {
            Some(name) => exists|i: int|
                #![trigger LANGUAGES@[i]]
                0 <= i < LANGUAGES@.len() && (LANGUAGES@[i].0@ == code || LANGUAGES@[i].1@ == code
                    || LANGUAGES@[i].2@ == code) && LANGUAGES@[i].3 == name && canonical_code(code)
                    == LANGUAGES@[i].0@,
            None => canonical_code(code) == code && forall|i: int|
                #![trigger LANGUAGES@[i]]
                0 <= i < LANGUAGES@.len() ==> LANGUAGES@[i].0@ != code && LANGUAGES@[i].1@ != code
                    && LANGUAGES@[i].2@ != code,
        },
{
    lemma_first_with(LANGUAGES@, code);
}

proof fn lemma_first_with(languages: Seq<Language>, code: Seq<char>)
    ensures
        match first_with(languages, code) {
            Some(language) => exists|i: int|
                #![trigger languages[i]]
                0 <= i < languages.len() && languages[i] == language && has_code(
                    languages[i],
                    code,
                ),
            None => forall|i: int|
                #![trigger languages[i]]
                0 <= i < languages.len() ==> !has_code(languages[i], code),
        },
    decreases languages.len(),
{
    if languages.len() > 0 {
        let rest = languages.drop_first();
        lemma_first_with(rest, code);
        assert(languages[0] == languages.first());
        if !has_code(languages[0], code) {
            if first_with(rest, code) is Some {
                let i = choose|i: int|
                    #![trigger rest[i]]
                    0 <= i < rest.len() && rest[i] == first_with(rest, code)->0 && has_code(
                        rest[i],
                        code,
                    );
                assert(languages[i + 1] == rest[i]);
            } else {
                assert forall|i: int|
                    #![trigger languages[i]]
                    0 <= i < languages.len() implies !has_code(languages[i], code) by {
                    if i > 0 {
                        assert(rest[i - 1] == languages[i]);
                    }
                }
            }
        }
    }
}

} // verus!
