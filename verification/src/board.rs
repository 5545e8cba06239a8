//! The closed board enumeration: each known board with its canonical
//! display string, used both to parse header text and to compose listing
//! URLs. Unrecognized text maps to `Unknown` rather than failing, since
//! board-name drift must not block extraction of the rest of an article.

use vstd::prelude::*;

use crate::text::chars_eq_str;

verus! {

/// The known boards, with `Unknown` for any unrecognized name.
#[derive(Clone, Copy, Debug, PartialEq, Eq, Structural)]
pub enum BoardName {
    AllTogether,
    BankService,
    Baseball,
    BasketballTW,
    Beauty,
    BeautySalon,
    Biker,
    BoyGirl,
    Brand,
    BuyTogether,
    CChat,
    Car,
    CarShop,
    Cat,
    ChinaDrama,
    CookClub,
    CreditCard,
    DcSale,
    DmmGames,
    DramaTicket,
    Dslr,
    EAppliance,
    EShopping,
    Examination,
    FastFood,
    FateGo,
    Finance,
    Food,
    ForSale,
    GameSale,
    Gay,
    Gbf,
    GetMarry,
    Give,
    Gossiping,
    HardwareSale,
    HatePolitics,
    Hbl,
    Headphone,
    Hearthstone,
    HelpBuy,
    HomeSale,
    HyperMall,
    Insurance,
    IOs,
    Iu,
    JapanTravel,
    JapanAvGirls,
    JapanDrama,
    Joke,
    Kaohsiung,
    KeyMouPad,
    KoreaDrama,
    KoreaStar,
    KoreanPop,
    Lakers,
    Lesbian,
    LifeIsMoney,
    LoL,
    MacShop,
    MakeUp,
    Marriage,
    Marvel,
    MayDay,
    Medstudent,
    Military,
    Mlb,
    MobileComm,
    MobileGame,
    MobilePay,
    MobileSales,
    Movie,
    MuscleBeach,
    NbShopping,
    Nba,
    NbaFilm,
    Nogizaka46,
    NSwitch,
    OnePiece,
    PalmarDrama,
    PartTime,
    PathOfExile,
    PcShopping,
    PlayStation,
    PokeMon,
    PokemonGO,
    PuzzleDragon,
    Salary,
    Sex,
    SoftJob,
    SportLottery,
    Steam,
    Stock,
    StupidClown,
    TaichungBun,
    Tainan,
    TaiwanDrama,
    TechJob,
    ToS,
    TwEntertain,
    Twice,
    TypeMoon,
    Wanted,
    Watch,
    WomenTalk,
    Wow,
    Zastrology,
    EASeries,
    Unknown,
}

/// The canonical display string of a board.
pub open spec fn spec_board_str(b: BoardName) -> Seq<char> {
    match b {
        BoardName::AllTogether => "AllTogether"@,
        BoardName::BankService => "Bank_Service"@,
        BoardName::Baseball => "Baseball"@,
        BoardName::BasketballTW => "basketballTW"@,
        BoardName::Beauty => "Beauty"@,
        BoardName::BeautySalon => "BeautySalon"@,
        BoardName::Biker => "biker"@,
        BoardName::BoyGirl => "Boy-Girl"@,
        BoardName::Brand => "Brand"@,
        BoardName::BuyTogether => "BuyTogether"@,
        BoardName::CChat => "C_Chat"@,
        BoardName::Car => "car"@,
        BoardName::CarShop => "CarShop"@,
        BoardName::Cat => "cat"@,
        BoardName::ChinaDrama => "China-Drama"@,
        BoardName::CookClub => "cookclub"@,
        BoardName::CreditCard => "creditcard"@,
        BoardName::DcSale => "DC_SALE"@,
        BoardName::DmmGames => "DMM_GAMES"@,
        BoardName::DramaTicket => "Drama-Ticket"@,
        BoardName::Dslr => "DSLR"@,
        BoardName::EAppliance => "E-appliance"@,
        BoardName::EShopping => "e-shopping"@,
        BoardName::Examination => "Examination"@,
        BoardName::FastFood => "fastfood"@,
        BoardName::FateGo => "FATE_GO"@,
        BoardName::Finance => "Finance"@,
        BoardName::Food => "Food"@,
        BoardName::ForSale => "forsale"@,
        BoardName::GameSale => "Gamesale"@,
        BoardName::Gay => "gay"@,
        BoardName::Gbf => "GBF"@,
        BoardName::GetMarry => "GetMarry"@,
        BoardName::Give => "give"@,
        BoardName::Gossiping => "Gossiping"@,
        BoardName::HardwareSale => "HardwareSale"@,
        BoardName::HatePolitics => "HatePolitics"@,
        BoardName::Hbl => "HBL"@,
        BoardName::Headphone => "Headphone"@,
        BoardName::Hearthstone => "Hearthstone"@,
        BoardName::HelpBuy => "HelpBuy"@,
        BoardName::HomeSale => "home-sale"@,
        BoardName::HyperMall => "hypermall"@,
        BoardName::Insurance => "Insurance"@,
        BoardName::IOs => "iOS"@,
        BoardName::Iu => "IU"@,
        BoardName::JapanTravel => "Japan_Travel"@,
        BoardName::JapanAvGirls => "japanavgirls"@,
        BoardName::JapanDrama => "Japandrama"@,
        BoardName::Joke => "joke"@,
        BoardName::Kaohsiung => "Kaohsiung"@,
        BoardName::KeyMouPad => "Key_Mou_Pad"@,
        BoardName::KoreaDrama => "KoreaDrama"@,
        BoardName::KoreaStar => "KoreaStar"@,
        BoardName::KoreanPop => "KoreanPop"@,
        BoardName::Lakers => "Lakers"@,
        BoardName::Lesbian => "lesbian"@,
        BoardName::LifeIsMoney => "Lifeismoney"@,
        BoardName::LoL => "LoL"@,
        BoardName::MacShop => "MacShop"@,
        BoardName::MakeUp => "MakeUp"@,
        BoardName::Marriage => "marriage"@,
        BoardName::Marvel => "marvel"@,
        BoardName::MayDay => "MayDay"@,
        BoardName::Medstudent => "medstudent"@,
        BoardName::Military => "Military"@,
        BoardName::Mlb => "MLB"@,
        BoardName::MobileComm => "MobileComm"@,
        BoardName::MobileGame => "Mobile-game"@,
        BoardName::MobilePay => "MobilePay"@,
        BoardName::MobileSales => "mobilesales"@,
        BoardName::Movie => "movie"@,
        BoardName::MuscleBeach => "MuscleBeach"@,
        BoardName::NbShopping => "nb-shopping"@,
        BoardName::Nba => "NBA"@,
        BoardName::NbaFilm => "NBA_Film"@,
        BoardName::Nogizaka46 => "Nogizaka46"@,
        BoardName::NSwitch => "NSwitch"@,
        BoardName::OnePiece => "ONE_PIECE"@,
        BoardName::PalmarDrama => "Palmar_Drama"@,
        BoardName::PartTime => "part-time"@,
        BoardName::PathOfExile => "PathofExile"@,
        BoardName::PcShopping => "PC_Shopping"@,
        BoardName::PlayStation => "PlayStation"@,
        BoardName::PokeMon => "PokeMon"@,
        BoardName::PokemonGO => "PokemonGO"@,
        BoardName::PuzzleDragon => "PuzzleDragon"@,
        BoardName::Salary => "Salary"@,
        BoardName::Sex => "sex"@,
        BoardName::SoftJob => "Soft_Job"@,
        BoardName::SportLottery => "SportLottery"@,
        BoardName::Steam => "Steam"@,
        BoardName::Stock => "Stock"@,
        BoardName::StupidClown => "StupidClown"@,
        BoardName::TaichungBun => "TaichungBun"@,
        BoardName::Tainan => "Tainan"@,
        BoardName::TaiwanDrama => "TaiwanDrama"@,
        BoardName::TechJob => "Tech_Job"@,
        BoardName::ToS => "ToS"@,
        BoardName::TwEntertain => "TW_Entertain"@,
        BoardName::Twice => "TWICE"@,
        BoardName::TypeMoon => "TypeMoon"@,
        BoardName::Wanted => "Wanted"@,
        BoardName::Watch => "watch"@,
        BoardName::WomenTalk => "WomenTalk"@,
        BoardName::Wow => "WOW"@,
        BoardName::Zastrology => "Zastrology"@,
        BoardName::EASeries => "EAseries"@,
        BoardName::Unknown => "Unknown"@,
    }
}

/// The board a header string names: the variant whose canonical string the
/// text equals, and `Unknown` for every other text.
pub open spec fn spec_board_of(s: Seq<char>) -> BoardName {
    if s == spec_board_str(BoardName::AllTogether) {
        BoardName::AllTogether
    } else if s == spec_board_str(BoardName::BankService) {
        BoardName::BankService
    } else if s == spec_board_str(BoardName::Baseball) {
        BoardName::Baseball
    } else if s == spec_board_str(BoardName::BasketballTW) {
        BoardName::BasketballTW
    } else if s == spec_board_str(BoardName::Beauty) {
        BoardName::Beauty
    } else if s == spec_board_str(BoardName::BeautySalon) {
        BoardName::BeautySalon
    } else if s == spec_board_str(BoardName::Biker) {
        BoardName::Biker
    } else if s == spec_board_str(BoardName::BoyGirl) {
        BoardName::BoyGirl
    } else if s == spec_board_str(BoardName::Brand) {
        BoardName::Brand
    } else if s == spec_board_str(BoardName::BuyTogether) {
        BoardName::BuyTogether
    } else if s == spec_board_str(BoardName::CChat) {
        BoardName::CChat
    } else if s == spec_board_str(BoardName::Car) {
        BoardName::Car
    } else if s == spec_board_str(BoardName::CarShop) {
        BoardName::CarShop
    } else if s == spec_board_str(BoardName::Cat) {
        BoardName::Cat
    } else if s == spec_board_str(BoardName::ChinaDrama) {
        BoardName::ChinaDrama
    } else if s == spec_board_str(BoardName::CookClub) {
        BoardName::CookClub
    } else if s == spec_board_str(BoardName::CreditCard) {
        BoardName::CreditCard
    } else if s == spec_board_str(BoardName::DcSale) {
        BoardName::DcSale
    } else if s == spec_board_str(BoardName::DmmGames) {
        BoardName::DmmGames
    } else if s == spec_board_str(BoardName::DramaTicket) {
        BoardName::DramaTicket
    } else if s == spec_board_str(BoardName::Dslr) {
        BoardName::Dslr
    } else if s == spec_board_str(BoardName::EAppliance) {
        BoardName::EAppliance
    } else if s == spec_board_str(BoardName::EShopping) {
        BoardName::EShopping
    } else if s == spec_board_str(BoardName::Examination) {
        BoardName::Examination
    } else if s == spec_board_str(BoardName::FastFood) {
        BoardName::FastFood
    } else if s == spec_board_str(BoardName::FateGo) {
        BoardName::FateGo
    } else if s == spec_board_str(BoardName::Finance) {
        BoardName::Finance
    } else if s == spec_board_str(BoardName::Food) {
        BoardName::Food
    } else if s == spec_board_str(BoardName::ForSale) {
        BoardName::ForSale
    } else if s == spec_board_str(BoardName::GameSale) {
        BoardName::GameSale
    } else if s == spec_board_str(BoardName::Gay) {
        BoardName::Gay
    } else if s == spec_board_str(BoardName::Gbf) {
        BoardName::Gbf
    } else if s == spec_board_str(BoardName::GetMarry) {
        BoardName::GetMarry
    } else if s == spec_board_str(BoardName::Give) {
        BoardName::Give
    } else if s == spec_board_str(BoardName::Gossiping) {
        BoardName::Gossiping
    } else if s == spec_board_str(BoardName::HardwareSale) {
        BoardName::HardwareSale
    } else if s == spec_board_str(BoardName::HatePolitics) {
        BoardName::HatePolitics
    } else if s == spec_board_str(BoardName::Hbl) {
        BoardName::Hbl
    } else if s == spec_board_str(BoardName::Headphone) {
        BoardName::Headphone
    } else if s == spec_board_str(BoardName::Hearthstone) {
        BoardName::Hearthstone
    } else if s == spec_board_str(BoardName::HelpBuy) {
        BoardName::HelpBuy
    } else if s == spec_board_str(BoardName::HomeSale) {
        BoardName::HomeSale
    } else if s == spec_board_str(BoardName::HyperMall) {
        BoardName::HyperMall
    } else if s == spec_board_str(BoardName::Insurance) {
        BoardName::Insurance
    } else if s == spec_board_str(BoardName::IOs) {
        BoardName::IOs
    } else if s == spec_board_str(BoardName::Iu) {
        BoardName::Iu
    } else if s == spec_board_str(BoardName::JapanTravel) {
        BoardName::JapanTravel
    } else if s == spec_board_str(BoardName::JapanAvGirls) {
        BoardName::JapanAvGirls
    } else if s == spec_board_str(BoardName::JapanDrama) {
        BoardName::JapanDrama
    } else if s == spec_board_str(BoardName::Joke) {
        BoardName::Joke
    } else if s == spec_board_str(BoardName::Kaohsiung) {
        BoardName::Kaohsiung
    } else if s == spec_board_str(BoardName::KeyMouPad) {
        BoardName::KeyMouPad
    } else if s == spec_board_str(BoardName::KoreaDrama) {
        BoardName::KoreaDrama
    } else if s == spec_board_str(BoardName::KoreaStar) {
        BoardName::KoreaStar
    } else if s == spec_board_str(BoardName::KoreanPop) {
        BoardName::KoreanPop
    } else if s == spec_board_str(BoardName::Lakers) {
        BoardName::Lakers
    } else if s == spec_board_str(BoardName::Lesbian) {
        BoardName::Lesbian
    } else if s == spec_board_str(BoardName::LifeIsMoney) {
        BoardName::LifeIsMoney
    } else if s == spec_board_str(BoardName::LoL) {
        BoardName::LoL
    } else if s == spec_board_str(BoardName::MacShop) {
        BoardName::MacShop
    } else if s == spec_board_str(BoardName::MakeUp) {
        BoardName::MakeUp
    } else if s == spec_board_str(BoardName::Marriage) {
        BoardName::Marriage
    } else if s == spec_board_str(BoardName::Marvel) {
        BoardName::Marvel
    } else if s == spec_board_str(BoardName::MayDay) {
        BoardName::MayDay
    } else if s == spec_board_str(BoardName::Medstudent) {
        BoardName::Medstudent
    } else if s == spec_board_str(BoardName::Military) {
        BoardName::Military
    } else if s == spec_board_str(BoardName::Mlb) {
        BoardName::Mlb
    } else if s == spec_board_str(BoardName::MobileComm) {
        BoardName::MobileComm
    } else if s == spec_board_str(BoardName::MobileGame) {
        BoardName::MobileGame
    } else if s == spec_board_str(BoardName::MobilePay) {
        BoardName::MobilePay
    } else if s == spec_board_str(BoardName::MobileSales) {
        BoardName::MobileSales
    } else if s == spec_board_str(BoardName::Movie) {
        BoardName::Movie
    } else if s == spec_board_str(BoardName::MuscleBeach) {
        BoardName::MuscleBeach
    } else if s == spec_board_str(BoardName::NbShopping) {
        BoardName::NbShopping
    } else if s == spec_board_str(BoardName::Nba) {
        BoardName::Nba
    } else if s == spec_board_str(BoardName::NbaFilm) {
        BoardName::NbaFilm
    } else if s == spec_board_str(BoardName::Nogizaka46) {
        BoardName::Nogizaka46
    } else if s == spec_board_str(BoardName::NSwitch) {
        BoardName::NSwitch
    } else if s == spec_board_str(BoardName::OnePiece) {
        BoardName::OnePiece
    } else if s == spec_board_str(BoardName::PalmarDrama) {
        BoardName::PalmarDrama
    } else if s == spec_board_str(BoardName::PartTime) {
        BoardName::PartTime
    } else if s == spec_board_str(BoardName::PathOfExile) {
        BoardName::PathOfExile
    } else if s == spec_board_str(BoardName::PcShopping) {
        BoardName::PcShopping
    } else if s == spec_board_str(BoardName::PlayStation) {
        BoardName::PlayStation
    } else if s == spec_board_str(BoardName::PokeMon) {
        BoardName::PokeMon
    } else if s == spec_board_str(BoardName::PokemonGO) {
        BoardName::PokemonGO
    } else if s == spec_board_str(BoardName::PuzzleDragon) {
        BoardName::PuzzleDragon
    } else if s == spec_board_str(BoardName::Salary) {
        BoardName::Salary
    } else if s == spec_board_str(BoardName::Sex) {
        BoardName::Sex
    } else if s == spec_board_str(BoardName::SoftJob) {
        BoardName::SoftJob
    } else if s == spec_board_str(BoardName::SportLottery) {
        BoardName::SportLottery
    } else if s == spec_board_str(BoardName::Steam) {
        BoardName::Steam
    } else if s == spec_board_str(BoardName::Stock) {
        BoardName::Stock
    } else if s == spec_board_str(BoardName::StupidClown) {
        BoardName::StupidClown
    } else if s == spec_board_str(BoardName::TaichungBun) {
        BoardName::TaichungBun
    } else if s == spec_board_str(BoardName::Tainan) {
        BoardName::Tainan
    } else if s == spec_board_str(BoardName::TaiwanDrama) {
        BoardName::TaiwanDrama
    } else if s == spec_board_str(BoardName::TechJob) {
        BoardName::TechJob
    } else if s == spec_board_str(BoardName::ToS) {
        BoardName::ToS
    } else if s == spec_board_str(BoardName::TwEntertain) {
        BoardName::TwEntertain
    } else if s == spec_board_str(BoardName::Twice) {
        BoardName::Twice
    } else if s == spec_board_str(BoardName::TypeMoon) {
        BoardName::TypeMoon
    } else if s == spec_board_str(BoardName::Wanted) {
        BoardName::Wanted
    } else if s == spec_board_str(BoardName::Watch) {
        BoardName::Watch
    } else if s == spec_board_str(BoardName::WomenTalk) {
        BoardName::WomenTalk
    } else if s == spec_board_str(BoardName::Wow) {
        BoardName::Wow
    } else if s == spec_board_str(BoardName::Zastrology) {
        BoardName::Zastrology
    } else if s == spec_board_str(BoardName::EASeries) {
        BoardName::EASeries
    } else {
        BoardName::Unknown
    }
}

/// Whether the text names a board (the `Unknown` sentinel's own name
/// included).
pub open spec fn spec_is_board_name(s: Seq<char>) -> bool {
    spec_board_of(s) != BoardName::Unknown || s == spec_board_str(BoardName::Unknown)
}

pub fn board_str(b: &BoardName) -> (r: &'static str)
    ensures
        r@ == spec_board_str(*b),
{
    match b {
        BoardName::AllTogether => "AllTogether",
        BoardName::BankService => "Bank_Service",
        BoardName::Baseball => "Baseball",
        BoardName::BasketballTW => "basketballTW",
        BoardName::Beauty => "Beauty",
        BoardName::BeautySalon => "BeautySalon",
        BoardName::Biker => "biker",
        BoardName::BoyGirl => "Boy-Girl",
        BoardName::Brand => "Brand",
        BoardName::BuyTogether => "BuyTogether",
        BoardName::CChat => "C_Chat",
        BoardName::Car => "car",
        BoardName::CarShop => "CarShop",
        BoardName::Cat => "cat",
        BoardName::ChinaDrama => "China-Drama",
        BoardName::CookClub => "cookclub",
        BoardName::CreditCard => "creditcard",
        BoardName::DcSale => "DC_SALE",
        BoardName::DmmGames => "DMM_GAMES",
        BoardName::DramaTicket => "Drama-Ticket",
        BoardName::Dslr => "DSLR",
        BoardName::EAppliance => "E-appliance",
        BoardName::EShopping => "e-shopping",
        BoardName::Examination => "Examination",
        BoardName::FastFood => "fastfood",
        BoardName::FateGo => "FATE_GO",
        BoardName::Finance => "Finance",
        BoardName::Food => "Food",
        BoardName::ForSale => "forsale",
        BoardName::GameSale => "Gamesale",
        BoardName::Gay => "gay",
        BoardName::Gbf => "GBF",
        BoardName::GetMarry => "GetMarry",
        BoardName::Give => "give",
        BoardName::Gossiping => "Gossiping",
        BoardName::HardwareSale => "HardwareSale",
        BoardName::HatePolitics => "HatePolitics",
        BoardName::Hbl => "HBL",
        BoardName::Headphone => "Headphone",
        BoardName::Hearthstone => "Hearthstone",
        BoardName::HelpBuy => "HelpBuy",
        BoardName::HomeSale => "home-sale",
        BoardName::HyperMall => "hypermall",
        BoardName::Insurance => "Insurance",
        BoardName::IOs => "iOS",
        BoardName::Iu => "IU",
        BoardName::JapanTravel => "Japan_Travel",
        BoardName::JapanAvGirls => "japanavgirls",
        BoardName::JapanDrama => "Japandrama",
        BoardName::Joke => "joke",
        BoardName::Kaohsiung => "Kaohsiung",
        BoardName::KeyMouPad => "Key_Mou_Pad",
        BoardName::KoreaDrama => "KoreaDrama",
        BoardName::KoreaStar => "KoreaStar",
        BoardName::KoreanPop => "KoreanPop",
        BoardName::Lakers => "Lakers",
        BoardName::Lesbian => "lesbian",
        BoardName::LifeIsMoney => "Lifeismoney",
        BoardName::LoL => "LoL",
        BoardName::MacShop => "MacShop",
        BoardName::MakeUp => "MakeUp",
        BoardName::Marriage => "marriage",
        BoardName::Marvel => "marvel",
        BoardName::MayDay => "MayDay",
        BoardName::Medstudent => "medstudent",
        BoardName::Military => "Military",
        BoardName::Mlb => "MLB",
        BoardName::MobileComm => "MobileComm",
        BoardName::MobileGame => "Mobile-game",
        BoardName::MobilePay => "MobilePay",
        BoardName::MobileSales => "mobilesales",
        BoardName::Movie => "movie",
        BoardName::MuscleBeach => "MuscleBeach",
        BoardName::NbShopping => "nb-shopping",
        BoardName::Nba => "NBA",
        BoardName::NbaFilm => "NBA_Film",
        BoardName::Nogizaka46 => "Nogizaka46",
        BoardName::NSwitch => "NSwitch",
        BoardName::OnePiece => "ONE_PIECE",
        BoardName::PalmarDrama => "Palmar_Drama",
        BoardName::PartTime => "part-time",
        BoardName::PathOfExile => "PathofExile",
        BoardName::PcShopping => "PC_Shopping",
        BoardName::PlayStation => "PlayStation",
        BoardName::PokeMon => "PokeMon",
        BoardName::PokemonGO => "PokemonGO",
        BoardName::PuzzleDragon => "PuzzleDragon",
        BoardName::Salary => "Salary",
        BoardName::Sex => "sex",
        BoardName::SoftJob => "Soft_Job",
        BoardName::SportLottery => "SportLottery",
        BoardName::Steam => "Steam",
        BoardName::Stock => "Stock",
        BoardName::StupidClown => "StupidClown",
        BoardName::TaichungBun => "TaichungBun",
        BoardName::Tainan => "Tainan",
        BoardName::TaiwanDrama => "TaiwanDrama",
        BoardName::TechJob => "Tech_Job",
        BoardName::ToS => "ToS",
        BoardName::TwEntertain => "TW_Entertain",
        BoardName::Twice => "TWICE",
        BoardName::TypeMoon => "TypeMoon",
        BoardName::Wanted => "Wanted",
        BoardName::Watch => "watch",
        BoardName::WomenTalk => "WomenTalk",
        BoardName::Wow => "WOW",
        BoardName::Zastrology => "Zastrology",
        BoardName::EASeries => "EAseries",
        BoardName::Unknown => "Unknown",
    }
}

pub fn board_of_chars(v: &Vec<char>) -> (r: BoardName)
    ensures
        r == spec_board_of(v@),
{
    if chars_eq_str(v, "AllTogether") {
        BoardName::AllTogether
    } else if chars_eq_str(v, "Bank_Service") {
        BoardName::BankService
    } else if chars_eq_str(v, "Baseball") {
        BoardName::Baseball
    } else if chars_eq_str(v, "basketballTW") {
        BoardName::BasketballTW
    } else if chars_eq_str(v, "Beauty") {
        BoardName::Beauty
    } else if chars_eq_str(v, "BeautySalon") {
        BoardName::BeautySalon
    } else if chars_eq_str(v, "biker") {
        BoardName::Biker
    } else if chars_eq_str(v, "Boy-Girl") {
        BoardName::BoyGirl
    } else if chars_eq_str(v, "Brand") {
        BoardName::Brand
    } else if chars_eq_str(v, "BuyTogether") {
        BoardName::BuyTogether
    } else if chars_eq_str(v, "C_Chat") {
        BoardName::CChat
    } else if chars_eq_str(v, "car") {
        BoardName::Car
    } else if chars_eq_str(v, "CarShop") {
        BoardName::CarShop
    } else if chars_eq_str(v, "cat") {
        BoardName::Cat
    } else if chars_eq_str(v, "China-Drama") {
        BoardName::ChinaDrama
    } else if chars_eq_str(v, "cookclub") {
        BoardName::CookClub
    } else if chars_eq_str(v, "creditcard") {
        BoardName::CreditCard
    } else if chars_eq_str(v, "DC_SALE") {
        BoardName::DcSale
    } else if chars_eq_str(v, "DMM_GAMES") {
        BoardName::DmmGames
    } else if chars_eq_str(v, "Drama-Ticket") {
        BoardName::DramaTicket
    } else if chars_eq_str(v, "DSLR") {
        BoardName::Dslr
    } else if chars_eq_str(v, "E-appliance") {
        BoardName::EAppliance
    } else if chars_eq_str(v, "e-shopping") {
        BoardName::EShopping
    } else if chars_eq_str(v, "Examination") {
        BoardName::Examination
    } else if chars_eq_str(v, "fastfood") {
        BoardName::FastFood
    } else if chars_eq_str(v, "FATE_GO") {
        BoardName::FateGo
    } else if chars_eq_str(v, "Finance") {
        BoardName::Finance
    } else if chars_eq_str(v, "Food") {
        BoardName::Food
    } else if chars_eq_str(v, "forsale") {
        BoardName::ForSale
    } else if chars_eq_str(v, "Gamesale") {
        BoardName::GameSale
    } else if chars_eq_str(v, "gay") {
        BoardName::Gay
    } else if chars_eq_str(v, "GBF") {
        BoardName::Gbf
    } else if chars_eq_str(v, "GetMarry") {
        BoardName::GetMarry
    } else if chars_eq_str(v, "give") {
        BoardName::Give
    } else if chars_eq_str(v, "Gossiping") {
        BoardName::Gossiping
    } else if chars_eq_str(v, "HardwareSale") {
        BoardName::HardwareSale
    } else if chars_eq_str(v, "HatePolitics") {
        BoardName::HatePolitics
    } else if chars_eq_str(v, "HBL") {
        BoardName::Hbl
    } else if chars_eq_str(v, "Headphone") {
        BoardName::Headphone
    } else if chars_eq_str(v, "Hearthstone") {
        BoardName::Hearthstone
    } else if chars_eq_str(v, "HelpBuy") {
        BoardName::HelpBuy
    } else if chars_eq_str(v, "home-sale") {
        BoardName::HomeSale
    } else if chars_eq_str(v, "hypermall") {
        BoardName::HyperMall
    } else if chars_eq_str(v, "Insurance") {
        BoardName::Insurance
    } else if chars_eq_str(v, "iOS") {
        BoardName::IOs
    } else if chars_eq_str(v, "IU") {
        BoardName::Iu
    } else if chars_eq_str(v, "Japan_Travel") {
        BoardName::JapanTravel
    } else if chars_eq_str(v, "japanavgirls") {
        BoardName::JapanAvGirls
    } else if chars_eq_str(v, "Japandrama") {
        BoardName::JapanDrama
    } else if chars_eq_str(v, "joke") {
        BoardName::Joke
    } else if chars_eq_str(v, "Kaohsiung") {
        BoardName::Kaohsiung
    } else if chars_eq_str(v, "Key_Mou_Pad") {
        BoardName::KeyMouPad
    } else if chars_eq_str(v, "KoreaDrama") {
        BoardName::KoreaDrama
    } else if chars_eq_str(v, "KoreaStar") {
        BoardName::KoreaStar
    } else if chars_eq_str(v, "KoreanPop") {
        BoardName::KoreanPop
    } else if chars_eq_str(v, "Lakers") {
        BoardName::Lakers
    } else if chars_eq_str(v, "lesbian") {
        BoardName::Lesbian
    } else if chars_eq_str(v, "Lifeismoney") {
        BoardName::LifeIsMoney
    } else if chars_eq_str(v, "LoL") {
        BoardName::LoL
    } else if chars_eq_str(v, "MacShop") {
        BoardName::MacShop
    } else if chars_eq_str(v, "MakeUp") {
        BoardName::MakeUp
    } else if chars_eq_str(v, "marriage") {
        BoardName::Marriage
    } else if chars_eq_str(v, "marvel") {
        BoardName::Marvel
    } else if chars_eq_str(v, "MayDay") {
        BoardName::MayDay
    } else if chars_eq_str(v, "medstudent") {
        BoardName::Medstudent
    } else if chars_eq_str(v, "Military") {
        BoardName::Military
    } else if chars_eq_str(v, "MLB") {
        BoardName::Mlb
    } else if chars_eq_str(v, "MobileComm") {
        BoardName::MobileComm
    } else if chars_eq_str(v, "Mobile-game") {
        BoardName::MobileGame
    } else if chars_eq_str(v, "MobilePay") {
        BoardName::MobilePay
    } else if chars_eq_str(v, "mobilesales") {
        BoardName::MobileSales
    } else if chars_eq_str(v, "movie") {
        BoardName::Movie
    } else if chars_eq_str(v, "MuscleBeach") {
        BoardName::MuscleBeach
    } else if chars_eq_str(v, "nb-shopping") {
        BoardName::NbShopping
    } else if chars_eq_str(v, "NBA") {
        BoardName::Nba
    } else if chars_eq_str(v, "NBA_Film") {
        BoardName::NbaFilm
    } else if chars_eq_str(v, "Nogizaka46") {
        BoardName::Nogizaka46
    } else if chars_eq_str(v, "NSwitch") {
        BoardName::NSwitch
    } else if chars_eq_str(v, "ONE_PIECE") {
        BoardName::OnePiece
    } else if chars_eq_str(v, "Palmar_Drama") {
        BoardName::PalmarDrama
    } else if chars_eq_str(v, "part-time") {
        BoardName::PartTime
    } else if chars_eq_str(v, "PathofExile") {
        BoardName::PathOfExile
    } else if chars_eq_str(v, "PC_Shopping") {
        BoardName::PcShopping
    } else if chars_eq_str(v, "PlayStation") {
        BoardName::PlayStation
    } else if chars_eq_str(v, "PokeMon") {
        BoardName::PokeMon
    } else if chars_eq_str(v, "PokemonGO") {
        BoardName::PokemonGO
    } else if chars_eq_str(v, "PuzzleDragon") {
        BoardName::PuzzleDragon
    } else if chars_eq_str(v, "Salary") {
        BoardName::Salary
    } else if chars_eq_str(v, "sex") {
        BoardName::Sex
    } else if chars_eq_str(v, "Soft_Job") {
        BoardName::SoftJob
    } else if chars_eq_str(v, "SportLottery") {
        BoardName::SportLottery
    } else if chars_eq_str(v, "Steam") {
        BoardName::Steam
    } else if chars_eq_str(v, "Stock") {
        BoardName::Stock
    } else if chars_eq_str(v, "StupidClown") {
        BoardName::StupidClown
    } else if chars_eq_str(v, "TaichungBun") {
        BoardName::TaichungBun
    } else if chars_eq_str(v, "Tainan") {
        BoardName::Tainan
    } else if chars_eq_str(v, "TaiwanDrama") {
        BoardName::TaiwanDrama
    } else if chars_eq_str(v, "Tech_Job") {
        BoardName::TechJob
    } else if chars_eq_str(v, "ToS") {
        BoardName::ToS
    } else if chars_eq_str(v, "TW_Entertain") {
        BoardName::TwEntertain
    } else if chars_eq_str(v, "TWICE") {
        BoardName::Twice
    } else if chars_eq_str(v, "TypeMoon") {
        BoardName::TypeMoon
    } else if chars_eq_str(v, "Wanted") {
        BoardName::Wanted
    } else if chars_eq_str(v, "watch") {
        BoardName::Watch
    } else if chars_eq_str(v, "WomenTalk") {
        BoardName::WomenTalk
    } else if chars_eq_str(v, "WOW") {
        BoardName::Wow
    } else if chars_eq_str(v, "Zastrology") {
        BoardName::Zastrology
    } else if chars_eq_str(v, "EAseries") {
        BoardName::EASeries
    } else {
        BoardName::Unknown
    }
}

pub fn is_board_name(v: &Vec<char>) -> (r: bool)
    ensures
        r == spec_is_board_name(v@),
{
    if chars_eq_str(v, "Unknown") {
        true
    } else {
        let b = board_of_chars(v);
        !matches!(b, BoardName::Unknown)
    }
}

} // verus!
// The full board list, for callers that enumerate the known boards.

verus! {

/// Every board of the enumeration, the `Unknown` sentinel included, in
/// declaration order.
pub open spec fn spec_all_boards() -> Seq<BoardName> {
    seq![
        BoardName::AllTogether,
        BoardName::BankService,
        BoardName::Baseball,
        BoardName::BasketballTW,
        BoardName::Beauty,
        BoardName::BeautySalon,
        BoardName::Biker,
        BoardName::BoyGirl,
        BoardName::Brand,
        BoardName::BuyTogether,
        BoardName::CChat,
        BoardName::Car,
        BoardName::CarShop,
        BoardName::Cat,
        BoardName::ChinaDrama,
        BoardName::CookClub,
        BoardName::CreditCard,
        BoardName::DcSale,
        BoardName::DmmGames,
        BoardName::DramaTicket,
        BoardName::Dslr,
        BoardName::EAppliance,
        BoardName::EShopping,
        BoardName::Examination,
        BoardName::FastFood,
        BoardName::FateGo,
        BoardName::Finance,
        BoardName::Food,
        BoardName::ForSale,
        BoardName::GameSale,
        BoardName::Gay,
        BoardName::Gbf,
        BoardName::GetMarry,
        BoardName::Give,
        BoardName::Gossiping,
        BoardName::HardwareSale,
        BoardName::HatePolitics,
        BoardName::Hbl,
        BoardName::Headphone,
        BoardName::Hearthstone,
        BoardName::HelpBuy,
        BoardName::HomeSale,
        BoardName::HyperMall,
        BoardName::Insurance,
        BoardName::IOs,
        BoardName::Iu,
        BoardName::JapanTravel,
        BoardName::JapanAvGirls,
        BoardName::JapanDrama,
        BoardName::Joke,
        BoardName::Kaohsiung,
        BoardName::KeyMouPad,
        BoardName::KoreaDrama,
        BoardName::KoreaStar,
        BoardName::KoreanPop,
        BoardName::Lakers,
        BoardName::Lesbian,
        BoardName::LifeIsMoney,
        BoardName::LoL,
        BoardName::MacShop,
        BoardName::MakeUp,
        BoardName::Marriage,
        BoardName::Marvel,
        BoardName::MayDay,
        BoardName::Medstudent,
        BoardName::Military,
        BoardName::Mlb,
        BoardName::MobileComm,
        BoardName::MobileGame,
        BoardName::MobilePay,
        BoardName::MobileSales,
        BoardName::Movie,
        BoardName::MuscleBeach,
        BoardName::NbShopping,
        BoardName::Nba,
        BoardName::NbaFilm,
        BoardName::Nogizaka46,
        BoardName::NSwitch,
        BoardName::OnePiece,
        BoardName::PalmarDrama,
        BoardName::PartTime,
        BoardName::PathOfExile,
        BoardName::PcShopping,
        BoardName::PlayStation,
        BoardName::PokeMon,
        BoardName::PokemonGO,
        BoardName::PuzzleDragon,
        BoardName::Salary,
        BoardName::Sex,
        BoardName::SoftJob,
        BoardName::SportLottery,
        BoardName::Steam,
        BoardName::Stock,
        BoardName::StupidClown,
        BoardName::TaichungBun,
        BoardName::Tainan,
        BoardName::TaiwanDrama,
        BoardName::TechJob,
        BoardName::ToS,
        BoardName::TwEntertain,
        BoardName::Twice,
        BoardName::TypeMoon,
        BoardName::Wanted,
        BoardName::Watch,
        BoardName::WomenTalk,
        BoardName::Wow,
        BoardName::Zastrology,
        BoardName::EASeries,
        BoardName::Unknown,
    ]
}

fn push_boards_a(r: &mut Vec<BoardName>)
    ensures
        final (r)@ == old(r)@ + spec_all_boards().subrange(0, 28),
{
    r.push(BoardName::AllTogether);
    r.push(BoardName::BankService);
    r.push(BoardName::Baseball);
    r.push(BoardName::BasketballTW);
    r.push(BoardName::Beauty);
    r.push(BoardName::BeautySalon);
    r.push(BoardName::Biker);
    r.push(BoardName::BoyGirl);
    r.push(BoardName::Brand);
    r.push(BoardName::BuyTogether);
    r.push(BoardName::CChat);
    r.push(BoardName::Car);
    r.push(BoardName::CarShop);
    r.push(BoardName::Cat);
    r.push(BoardName::ChinaDrama);
    r.push(BoardName::CookClub);
    r.push(BoardName::CreditCard);
    r.push(BoardName::DcSale);
    r.push(BoardName::DmmGames);
    r.push(BoardName::DramaTicket);
    r.push(BoardName::Dslr);
    r.push(BoardName::EAppliance);
    r.push(BoardName::EShopping);
    r.push(BoardName::Examination);
    r.push(BoardName::FastFood);
    r.push(BoardName::FateGo);
    r.push(BoardName::Finance);
    r.push(BoardName::Food);
    proof {
        assert(r@ =~= old(r)@ + spec_all_boards().subrange(0, 28));
    }
}

fn push_boards_b(r: &mut Vec<BoardName>)
    ensures
        final (r)@ == old(r)@ + spec_all_boards().subrange(28, 56),
{
    r.push(BoardName::ForSale);
    r.push(BoardName::GameSale);
    r.push(BoardName::Gay);
    r.push(BoardName::Gbf);
    r.push(BoardName::GetMarry);
    r.push(BoardName::Give);
    r.push(BoardName::Gossiping);
    r.push(BoardName::HardwareSale);
    r.push(BoardName::HatePolitics);
    r.push(BoardName::Hbl);
    r.push(BoardName::Headphone);
    r.push(BoardName::Hearthstone);
    r.push(BoardName::HelpBuy);
    r.push(BoardName::HomeSale);
    r.push(BoardName::HyperMall);
    r.push(BoardName::Insurance);
    r.push(BoardName::IOs);
    r.push(BoardName::Iu);
    r.push(BoardName::JapanTravel);
    r.push(BoardName::JapanAvGirls);
    r.push(BoardName::JapanDrama);
    r.push(BoardName::Joke);
    r.push(BoardName::Kaohsiung);
    r.push(BoardName::KeyMouPad);
    r.push(BoardName::KoreaDrama);
    r.push(BoardName::KoreaStar);
    r.push(BoardName::KoreanPop);
    r.push(BoardName::Lakers);
    proof {
        assert(r@ =~= old(r)@ + spec_all_boards().subrange(28, 56));
    }
}

fn push_boards_c(r: &mut Vec<BoardName>)
    ensures
        final (r)@ == old(r)@ + spec_all_boards().subrange(56, 84),
{
    r.push(BoardName::Lesbian);
    r.push(BoardName::LifeIsMoney);
    r.push(BoardName::LoL);
    r.push(BoardName::MacShop);
    r.push(BoardName::MakeUp);
    r.push(BoardName::Marriage);
    r.push(BoardName::Marvel);
    r.push(BoardName::MayDay);
    r.push(BoardName::Medstudent);
    r.push(BoardName::Military);
    r.push(BoardName::Mlb);
    r.push(BoardName::MobileComm);
    r.push(BoardName::MobileGame);
    r.push(BoardName::MobilePay);
    r.push(BoardName::MobileSales);
    r.push(BoardName::Movie);
    r.push(BoardName::MuscleBeach);
    r.push(BoardName::NbShopping);
    r.push(BoardName::Nba);
    r.push(BoardName::NbaFilm);
    r.push(BoardName::Nogizaka46);
    r.push(BoardName::NSwitch);
    r.push(BoardName::OnePiece);
    r.push(BoardName::PalmarDrama);
    r.push(BoardName::PartTime);
    r.push(BoardName::PathOfExile);
    r.push(BoardName::PcShopping);
    r.push(BoardName::PlayStation);
    proof {
        assert(r@ =~= old(r)@ + spec_all_boards().subrange(56, 84));
    }
}

fn push_boards_d(r: &mut Vec<BoardName>)
    ensures
        final (r)@ == old(r)@ + spec_all_boards().subrange(84, 109),
{
    r.push(BoardName::PokeMon);
    r.push(BoardName::PokemonGO);
    r.push(BoardName::PuzzleDragon);
    r.push(BoardName::Salary);
    r.push(BoardName::Sex);
    r.push(BoardName::SoftJob);
    r.push(BoardName::SportLottery);
    r.push(BoardName::Steam);
    r.push(BoardName::Stock);
    r.push(BoardName::StupidClown);
    r.push(BoardName::TaichungBun);
    r.push(BoardName::Tainan);
    r.push(BoardName::TaiwanDrama);
    r.push(BoardName::TechJob);
    r.push(BoardName::ToS);
    r.push(BoardName::TwEntertain);
    r.push(BoardName::Twice);
    r.push(BoardName::TypeMoon);
    r.push(BoardName::Wanted);
    r.push(BoardName::Watch);
    r.push(BoardName::WomenTalk);
    r.push(BoardName::Wow);
    r.push(BoardName::Zastrology);
    r.push(BoardName::EASeries);
    r.push(BoardName::Unknown);
    proof {
        assert(r@ =~= old(r)@ + spec_all_boards().subrange(84, 109));
    }
}

pub fn all_boards() -> (r: Vec<BoardName>)
    ensures
        r@ == spec_all_boards(),
{
    let mut r: Vec<BoardName> = Vec::new();
    push_boards_a(&mut r);
    push_boards_b(&mut r);
    push_boards_c(&mut r);
    push_boards_d(&mut r);
    proof {
        assert(r@ =~= spec_all_boards());
    }
    r
}

} // verus!
