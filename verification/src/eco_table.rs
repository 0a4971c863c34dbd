//! The bundled table of opening names by ECO code, `A00` to `E99`, as
//! CSV with a header line.
use vstd::prelude::*;

verus! {

/// The table's text.
pub open spec fn eco_csv_text() -> Seq<char> {
    "eco,name\n\
        A00,Irregular Openings\n\
        A01,Nimzovich-Larsen Attack\n\
        A02,Bird's Opening\n\
        A03,\"Bird's Opening, 1...d5\"\n\
        A04,R\u{e9}ti Opening\n\
        A05,\"R\u{e9}ti Opening, 1...Nf6\"\n\
        A06,\"R\u{e9}ti Opening, 1...d5\"\n\
        A07,King's Indian Attack\n\
        A08,\"King's Indian Attack, 2...c5\"\n\
        A09,\"R\u{e9}ti Opening, 2.c4\"\n\
        A10,English Opening\n\
        A11,\"English Opening, Caro-Kann Defensive System\"\n\
        A12,\"English Opening, with b3\"\n\
        A13,\"English Opening, 1...e6\"\n\
        A14,\"English Opening, Agincourt Defense\"\n\
        A15,\"English Opening, Anglo-Indian Defense\"\n\
        A16,\"English Opening, Anglo-Indian Defense, 2.Nc3\"\n\
        A17,\"English Opening, Anglo-Indian Defense, 2...e6\"\n\
        A18,\"English Opening, Mikenas-Carls Variation\"\n\
        A19,\"English Opening, Mikenas-Carls, Sicilian Variation\"\n\
        A20,\"English Opening, King's English Variation\"\n\
        A21,\"English Opening, King's English, 2.Nc3\"\n\
        A22,\"English Opening, King's English, Two Knights Variation\"\n\
        A23,\"English Opening, Bremen System, Keres Variation\"\n\
        A24,\"English Opening, Bremen System with ...g6\"\n\
        A25,\"English Opening, King's English, Reversed Closed Sicilian\"\n\
        A26,\"English Opening, Closed, Botvinnik System\"\n\
        A27,\"English Opening, Three Knights System\"\n\
        A28,\"English Opening, Four Knights Variation\"\n\
        A29,\"English Opening, Four Knights, Kingside Fianchetto\"\n\
        A30,\"English Opening, Symmetrical Variation\"\n\
        A31,\"English Opening, Symmetrical, Benoni Formation\"\n\
        A32,\"English Opening, Symmetrical, Spielmann Defense\"\n\
        A33,\"English Opening, Symmetrical, Four Knights Variation\"\n\
        A34,\"English Opening, Symmetrical, Three Knights Variation\"\n\
        A35,\"English Opening, Symmetrical, Two Knights Variation\"\n\
        A36,\"English Opening, Symmetrical, Botvinnik System\"\n\
        A37,\"English Opening, Symmetrical, Two Knights Line\"\n\
        A38,\"English Opening, Symmetrical, Full Symmetry Line\"\n\
        A39,\"English Opening, Symmetrical, Main Line with d4\"\n\
        A40,Queen's Pawn Game\n\
        A41,\"Queen's Pawn Game, with ...d6\"\n\
        A42,\"Modern Defense, Averbakh System\"\n\
        A43,Old Benoni Defense\n\
        A44,\"Old Benoni Defense, Czech Benoni\"\n\
        A45,Indian Defense\n\
        A46,\"Indian Defense, Knights Variation\"\n\
        A47,\"Queen's Indian Defense, 2.Nf3 b6\"\n\
        A48,East Indian Defense\n\
        A49,\"King's Indian Defense, Fianchetto without c4\"\n\
        A50,\"Indian Defense, 2.c4\"\n\
        A51,Budapest Gambit Declined\n\
        A52,Budapest Gambit\n\
        A53,Old Indian Defense\n\
        A54,\"Old Indian Defense, Ukrainian Variation\"\n\
        A55,\"Old Indian Defense, Main Line\"\n\
        A56,\"Benoni Defense, 3.d5\"\n\
        A57,Benko Gambit\n\
        A58,\"Benko Gambit Accepted, Fully Accepted Variation\"\n\
        A59,\"Benko Gambit Accepted, Main Line\"\n\
        A60,\"Benoni Defense, Modern Variation\"\n\
        A61,\"Benoni Defense, Fianchetto Variation\"\n\
        A62,\"Benoni Defense, Fianchetto Variation, Main Line\"\n\
        A63,\"Benoni Defense, Fianchetto Variation, 9...Nbd7\"\n\
        A64,\"Benoni Defense, Fianchetto Variation, 11...Re8\"\n\
        A65,\"Benoni Defense, King's Pawn Line\"\n\
        A66,\"Benoni Defense, Pawn Storm Variation\"\n\
        A67,\"Benoni Defense, Taimanov Variation\"\n\
        A68,\"Benoni Defense, Four Pawns Attack\"\n\
        A69,\"Benoni Defense, Four Pawns Attack, Main Line\"\n\
        A70,\"Benoni Defense, Classical Variation\"\n\
        A71,\"Benoni Defense, Classical, 8.Bg5\"\n\
        A72,\"Benoni Defense, Classical without 9.O-O\"\n\
        A73,\"Benoni Defense, Classical, 9.O-O\"\n\
        A74,\"Benoni Defense, Classical, 9...a6, 10.a4\"\n\
        A75,\"Benoni Defense, Classical, Argentine Counterattack\"\n\
        A76,\"Benoni Defense, Classical, Main Line\"\n\
        A77,\"Benoni Defense, Classical, 9...Re8, 10.Nd2\"\n\
        A78,\"Benoni Defense, Classical with ...Re8 and ...Na6\"\n\
        A79,\"Benoni Defense, Classical, 11.f3\"\n\
        A80,Dutch Defense\n\
        A81,\"Dutch Defense, Fianchetto Variation\"\n\
        A82,\"Dutch Defense, Staunton Gambit\"\n\
        A83,\"Dutch Defense, Staunton Gambit Accepted\"\n\
        A84,\"Dutch Defense, 2.c4\"\n\
        A85,\"Dutch Defense, Queen's Knight Variation\"\n\
        A86,\"Dutch Defense, Fianchetto Attack\"\n\
        A87,\"Dutch Defense, Leningrad Variation\"\n\
        A88,\"Dutch Defense, Leningrad Variation, Warsaw Variation\"\n\
        A89,\"Dutch Defense, Leningrad Variation, Matulovic Variation\"\n\
        A90,\"Dutch Defense, Classical Variation\"\n\
        A91,\"Dutch Defense, Classical Variation, 4...Be7\"\n\
        A92,\"Dutch Defense, Stonewall Variation\"\n\
        A93,\"Dutch Defense, Stonewall, Botvinnik Variation\"\n\
        A94,\"Dutch Defense, Stonewall with Ba3\"\n\
        A95,\"Dutch Defense, Stonewall, Modern Variation\"\n\
        A96,\"Dutch Defense, Classical Variation, 5...O-O 6.O-O d6\"\n\
        A97,\"Dutch Defense, Ilyin-Zhenevsky Variation\"\n\
        A98,\"Dutch Defense, Ilyin-Zhenevsky Variation, Alatortsev-Lisitsyn Line\"\n\
        A99,\"Dutch Defense, Ilyin-Zhenevsky Variation, Modern Main Line\"\n\
        B00,King's Pawn Game\n\
        B01,Scandinavian Defense\n\
        B02,Alekhine Defense\n\
        B03,\"Alekhine Defense, 3.d4\"\n\
        B04,\"Alekhine Defense, Modern Variation\"\n\
        B05,\"Alekhine Defense, Modern Variation, Main Line\"\n\
        B06,Modern Defense\n\
        B07,Pirc Defense\n\
        B08,\"Pirc Defense, Classical Variation\"\n\
        B09,\"Pirc Defense, Austrian Attack\"\n\
        B10,Caro-Kann Defense\n\
        B11,\"Caro-Kann Defense, Two Knights Attack, Mindeno Variation\"\n\
        B12,\"Caro-Kann Defense, Advance Variation\"\n\
        B13,\"Caro-Kann Defense, Exchange Variation\"\n\
        B14,\"Caro-Kann Defense, Panov Attack\"\n\
        B15,\"Caro-Kann Defense, 3.Nc3\"\n\
        B16,\"Caro-Kann Defense, Bronstein-Larsen Variation\"\n\
        B17,\"Caro-Kann Defense, Karpov Variation\"\n\
        B18,\"Caro-Kann Defense, Classical Variation\"\n\
        B19,\"Caro-Kann Defense, Classical Variation, Main Line\"\n\
        B20,Sicilian Defense\n\
        B21,\"Sicilian Defense, Smith-Morra Gambit\"\n\
        B22,\"Sicilian Defense, Alapin Variation\"\n\
        B23,\"Sicilian Defense, Closed\"\n\
        B24,\"Sicilian Defense, Closed, Fianchetto Variation\"\n\
        B25,\"Sicilian Defense, Closed, 6.f4\"\n\
        B26,\"Sicilian Defense, Closed, 6.Be3\"\n\
        B27,\"Sicilian Defense, 2.Nf3\"\n\
        B28,\"Sicilian Defense, O'Kelly Variation\"\n\
        B29,\"Sicilian Defense, Nimzowitsch Variation\"\n\
        B30,\"Sicilian Defense, Old Sicilian\"\n\
        B31,\"Sicilian Defense, Rossolimo Variation\"\n\
        B32,\"Sicilian Defense, Open\"\n\
        B33,\"Sicilian Defense, Lasker-Pelikan Variation\"\n\
        B34,\"Sicilian Defense, Accelerated Dragon, Exchange Variation\"\n\
        B35,\"Sicilian Defense, Accelerated Dragon, Modern Bc4 Variation\"\n\
        B36,\"Sicilian Defense, Accelerated Dragon, Maroczy Bind\"\n\
        B37,\"Sicilian Defense, Accelerated Dragon, Maroczy Bind, 5...Bg7\"\n\
        B38,\"Sicilian Defense, Accelerated Dragon, Maroczy Bind, 6.Be3\"\n\
        B39,\"Sicilian Defense, Accelerated Dragon, Maroczy Bind, Breyer Variation\"\n\
        B40,\"Sicilian Defense, French Variation\"\n\
        B41,\"Sicilian Defense, Kan Variation\"\n\
        B42,\"Sicilian Defense, Kan Variation, Modern Variation\"\n\
        B43,\"Sicilian Defense, Kan Variation, Wing Attack\"\n\
        B44,\"Sicilian Defense, Taimanov Variation\"\n\
        B45,\"Sicilian Defense, Taimanov Variation, Normal Variation\"\n\
        B46,\"Sicilian Defense, Taimanov Variation, 5...a6\"\n\
        B47,\"Sicilian Defense, Taimanov Variation, Bastrikov Variation\"\n\
        B48,\"Sicilian Defense, Taimanov Variation, 6.Be3\"\n\
        B49,\"Sicilian Defense, Taimanov Variation, 6.Be3 a6 7.Be2\"\n\
        B50,\"Sicilian Defense, Modern Variations\"\n\
        B51,\"Sicilian Defense, Moscow Variation\"\n\
        B52,\"Sicilian Defense, Moscow Variation, 3...Bd7\"\n\
        B53,\"Sicilian Defense, Chekhover Variation\"\n\
        B54,\"Sicilian Defense, Prins Variation\"\n\
        B55,\"Sicilian Defense, Prins Variation, Venice Attack\"\n\
        B56,\"Sicilian Defense, Classical Variation\"\n\
        B57,\"Sicilian Defense, Classical Variation, Sozin Attack\"\n\
        B58,\"Sicilian Defense, Classical Variation, 6.Be2\"\n\
        B59,\"Sicilian Defense, Boleslavsky Variation, 7.Nb3\"\n\
        B60,\"Sicilian Defense, Richter-Rauzer Variation\"\n\
        B61,\"Sicilian Defense, Richter-Rauzer Variation, Larsen Variation\"\n\
        B62,\"Sicilian Defense, Richter-Rauzer Variation, 6...e6\"\n\
        B63,\"Sicilian Defense, Richter-Rauzer Variation, Traditional Line\"\n\
        B64,\"Sicilian Defense, Richter-Rauzer Variation, Traditional Line, 9.f4\"\n\
        B65,\"Sicilian Defense, Richter-Rauzer Variation, Traditional Line, 9...Nxd4\"\n\
        B66,\"Sicilian Defense, Richter-Rauzer Variation, Modern Line\"\n\
        B67,\"Sicilian Defense, Richter-Rauzer Variation, Modern Line, 8...Bd7\"\n\
        B68,\"Sicilian Defense, Richter-Rauzer Variation, Modern Line, 9...Be7\"\n\
        B69,\"Sicilian Defense, Richter-Rauzer Variation, Modern Line, 11.Bxf6\"\n\
        B70,\"Sicilian Defense, Dragon Variation\"\n\
        B71,\"Sicilian Defense, Dragon Variation, Levenfish Variation\"\n\
        B72,\"Sicilian Defense, Dragon Variation, 6.Be3\"\n\
        B73,\"Sicilian Defense, Dragon Variation, Classical Variation\"\n\
        B74,\"Sicilian Defense, Dragon Variation, Classical Variation, Normal Line\"\n\
        B75,\"Sicilian Defense, Dragon Variation, Yugoslav Attack\"\n\
        B76,\"Sicilian Defense, Dragon Variation, Yugoslav Attack, 7...O-O\"\n\
        B77,\"Sicilian Defense, Dragon Variation, Yugoslav Attack, 9.Bc4\"\n\
        B78,\"Sicilian Defense, Dragon Variation, Yugoslav Attack, 10.O-O-O\"\n\
        B79,\"Sicilian Defense, Dragon Variation, Yugoslav Attack, 12.h4\"\n\
        B80,\"Sicilian Defense, Scheveningen Variation\"\n\
        B81,\"Sicilian Defense, Scheveningen Variation, Keres Attack\"\n\
        B82,\"Sicilian Defense, Scheveningen Variation, 6.f4\"\n\
        B83,\"Sicilian Defense, Scheveningen Variation, 6.Be2\"\n\
        B84,\"Sicilian Defense, Scheveningen Variation, Classical Variation\"\n\
        B85,\"Sicilian Defense, Scheveningen Variation, Classical Main Line\"\n\
        B86,\"Sicilian Defense, Sozin Attack\"\n\
        B87,\"Sicilian Defense, Sozin Attack, Flank Variation\"\n\
        B88,\"Sicilian Defense, Sozin Attack, Leonhardt Variation\"\n\
        B89,\"Sicilian Defense, Sozin Attack, 7.Be3\"\n\
        B90,\"Sicilian Defense, Najdorf Variation\"\n\
        B91,\"Sicilian Defense, Najdorf Variation, Zagreb Variation\"\n\
        B92,\"Sicilian Defense, Najdorf Variation, Opocensky Variation\"\n\
        B93,\"Sicilian Defense, Najdorf Variation, 6.f4\"\n\
        B94,\"Sicilian Defense, Najdorf Variation, 6.Bg5\"\n\
        B95,\"Sicilian Defense, Najdorf Variation, 6...e6\"\n\
        B96,\"Sicilian Defense, Najdorf Variation, 7.f4\"\n\
        B97,\"Sicilian Defense, Najdorf Variation, Poisoned Pawn Variation\"\n\
        B98,\"Sicilian Defense, Najdorf Variation, 7...Be7\"\n\
        B99,\"Sicilian Defense, Najdorf Variation, Main Line\"\n\
        C00,French Defense\n\
        C01,\"French Defense, Exchange Variation\"\n\
        C02,\"French Defense, Advance Variation\"\n\
        C03,\"French Defense, Tarrasch Variation\"\n\
        C04,\"French Defense, Tarrasch Variation, Guimard Defense\"\n\
        C05,\"French Defense, Tarrasch Variation, Closed Variation\"\n\
        C06,\"French Defense, Tarrasch Variation, Closed Variation, Main Line\"\n\
        C07,\"French Defense, Tarrasch Variation, Open System\"\n\
        C08,\"French Defense, Tarrasch Variation, Open System, 4.exd5 exd5\"\n\
        C09,\"French Defense, Tarrasch Variation, Open System, Main Line\"\n\
        C10,\"French Defense, Paulsen Variation\"\n\
        C11,\"French Defense, Classical Variation\"\n\
        C12,\"French Defense, MacCutcheon Variation\"\n\
        C13,\"French Defense, Alekhine-Chatard Attack\"\n\
        C14,\"French Defense, Classical Variation, Main Line\"\n\
        C15,\"French Defense, Winawer Variation\"\n\
        C16,\"French Defense, Winawer Variation, Advance Variation\"\n\
        C17,\"French Defense, Winawer Variation, Bogoljubow Variation\"\n\
        C18,\"French Defense, Winawer Variation, Classical Variation\"\n\
        C19,\"French Defense, Winawer Variation, Poisoned Pawn Variation\"\n\
        C20,Open Game\n\
        C21,Center Game\n\
        C22,\"Center Game, Paulsen Attack\"\n\
        C23,Bishop's Opening\n\
        C24,\"Bishop's Opening, Berlin Defense\"\n\
        C25,Vienna Game\n\
        C26,\"Vienna Game, Falkbeer Variation\"\n\
        C27,\"Vienna Game, Frankenstein-Dracula Variation\"\n\
        C28,\"Vienna Game, Vienna Gambit, 3.Bc4 Nc6\"\n\
        C29,\"Vienna Game, Vienna Gambit\"\n\
        C30,King's Gambit\n\
        C31,\"King's Gambit Declined, Falkbeer Countergambit\"\n\
        C32,\"King's Gambit Declined, Falkbeer Countergambit, 5.dxe4\"\n\
        C33,King's Gambit Accepted\n\
        C34,\"King's Gambit Accepted, King's Knight's Gambit\"\n\
        C35,\"King's Gambit Accepted, Cunningham Defense\"\n\
        C36,\"King's Gambit Accepted, Abbazia Defense\"\n\
        C37,\"King's Gambit Accepted, Quaade Gambit\"\n\
        C38,\"King's Gambit Accepted, Traditional Variation\"\n\
        C39,\"King's Gambit Accepted, Allgaier and Kieseritzky Gambits\"\n\
        C40,King's Knight Opening\n\
        C41,Philidor Defense\n\
        C42,Petrov's Defense\n\
        C43,\"Petrov's Defense, Modern Attack\"\n\
        C44,\"King's Knight Opening, Normal Variation\"\n\
        C45,Scotch Game\n\
        C46,Three Knights Opening\n\
        C47,\"Four Knights Game, Scotch Variation\"\n\
        C48,\"Four Knights Game, Spanish Variation\"\n\
        C49,\"Four Knights Game, Double Spanish\"\n\
        C50,Italian Game\n\
        C51,\"Italian Game, Evans Gambit\"\n\
        C52,\"Italian Game, Evans Gambit, Main Line\"\n\
        C53,\"Italian Game, Classical Variation\"\n\
        C54,\"Italian Game, Classical Variation, Giuoco Pianissimo\"\n\
        C55,\"Italian Game, Two Knights Defense\"\n\
        C56,\"Italian Game, Two Knights Defense, Scotch Gambit\"\n\
        C57,\"Italian Game, Two Knights Defense, Fried Liver Attack\"\n\
        C58,\"Italian Game, Two Knights Defense, 5.Na4\"\n\
        C59,\"Italian Game, Two Knights Defense, Knorre Variation\"\n\
        C60,Ruy Lopez\n\
        C61,\"Ruy Lopez, Bird Variation\"\n\
        C62,\"Ruy Lopez, Steinitz Defense\"\n\
        C63,\"Ruy Lopez, Schliemann Defense\"\n\
        C64,\"Ruy Lopez, Classical Variation\"\n\
        C65,\"Ruy Lopez, Berlin Defense\"\n\
        C66,\"Ruy Lopez, Berlin Defense, Improved Steinitz Defense\"\n\
        C67,\"Ruy Lopez, Berlin Defense, Rio de Janeiro Variation\"\n\
        C68,\"Ruy Lopez, Exchange Variation\"\n\
        C69,\"Ruy Lopez, Exchange Variation, 5.O-O\"\n\
        C70,\"Ruy Lopez, Morphy Defense\"\n\
        C71,\"Ruy Lopez, Morphy Defense, Modern Steinitz Defense\"\n\
        C72,\"Ruy Lopez, Morphy Defense, Modern Steinitz Defense, 5.O-O\"\n\
        C73,\"Ruy Lopez, Morphy Defense, Modern Steinitz Defense, Richter Variation\"\n\
        C74,\"Ruy Lopez, Morphy Defense, Modern Steinitz Defense, 5.c3\"\n\
        C75,\"Ruy Lopez, Morphy Defense, Modern Steinitz Defense, 5.c3 Bd7\"\n\
        C76,\"Ruy Lopez, Morphy Defense, Modern Steinitz Defense, Fianchetto Variation\"\n\
        C77,\"Ruy Lopez, Morphy Defense, Anderssen Variation\"\n\
        C78,\"Ruy Lopez, Morphy Defense, 5.O-O\"\n\
        C79,\"Ruy Lopez, Morphy Defense, Steinitz Deferred\"\n\
        C80,\"Ruy Lopez, Open\"\n\
        C81,\"Ruy Lopez, Open, Howell Attack\"\n\
        C82,\"Ruy Lopez, Open, 9.c3\"\n\
        C83,\"Ruy Lopez, Open, Classical Defense\"\n\
        C84,\"Ruy Lopez, Closed\"\n\
        C85,\"Ruy Lopez, Closed, Delayed Exchange\"\n\
        C86,\"Ruy Lopez, Closed, Worrall Attack\"\n\
        C87,\"Ruy Lopez, Closed, Averbakh Variation\"\n\
        C88,\"Ruy Lopez, Closed, 7...O-O\"\n\
        C89,\"Ruy Lopez, Marshall Attack\"\n\
        C90,\"Ruy Lopez, Closed, 7...d6\"\n\
        C91,\"Ruy Lopez, Closed, 9.d4\"\n\
        C92,\"Ruy Lopez, Closed, 9.h3\"\n\
        C93,\"Ruy Lopez, Closed, Smyslov Defense\"\n\
        C94,\"Ruy Lopez, Closed, Breyer Defense\"\n\
        C95,\"Ruy Lopez, Closed, Breyer Defense, 10.d4\"\n\
        C96,\"Ruy Lopez, Closed, 8...Na5\"\n\
        C97,\"Ruy Lopez, Closed, Chigorin Defense\"\n\
        C98,\"Ruy Lopez, Closed, Chigorin Defense, 12...Nc6\"\n\
        C99,\"Ruy Lopez, Closed, Chigorin Defense, 12...cxd4\"\n\
        D00,Queen's Pawn Game\n\
        D01,Richter-Veresov Attack\n\
        D02,\"Queen's Pawn Game, 2.Nf3\"\n\
        D03,Torre Attack\n\
        D04,\"Queen's Pawn Game, Colle System\"\n\
        D05,\"Queen's Pawn Game, Colle System, 4...e6\"\n\
        D06,Queen's Gambit\n\
        D07,\"Queen's Gambit Declined, Chigorin Defense\"\n\
        D08,\"Queen's Gambit Declined, Albin Countergambit\"\n\
        D09,\"Queen's Gambit Declined, Albin Countergambit, Fianchetto Variation\"\n\
        D10,Slav Defense\n\
        D11,\"Slav Defense, Modern Line\"\n\
        D12,\"Slav Defense, Quiet Variation\"\n\
        D13,\"Slav Defense, Exchange Variation\"\n\
        D14,\"Slav Defense, Exchange Variation, Symmetrical Line\"\n\
        D15,\"Slav Defense, Three Knights Variation\"\n\
        D16,\"Slav Defense, Alapin Variation\"\n\
        D17,\"Slav Defense, Czech Variation\"\n\
        D18,\"Slav Defense, Czech Variation, Classical System\"\n\
        D19,\"Slav Defense, Czech Variation, Main Line\"\n\
        D20,Queen's Gambit Accepted\n\
        D21,\"Queen's Gambit Accepted, 3.Nf3\"\n\
        D22,\"Queen's Gambit Accepted, Alekhine Defense\"\n\
        D23,\"Queen's Gambit Accepted, 3.Nf3 Nf6\"\n\
        D24,\"Queen's Gambit Accepted, 4.Nc3\"\n\
        D25,\"Queen's Gambit Accepted, 4.e3\"\n\
        D26,\"Queen's Gambit Accepted, Classical Defense\"\n\
        D27,\"Queen's Gambit Accepted, Classical Defense, Main Line\"\n\
        D28,\"Queen's Gambit Accepted, Classical Defense, 7.Qe2\"\n\
        D29,\"Queen's Gambit Accepted, Classical Defense, 8...Bb7\"\n\
        D30,Queen's Gambit Declined\n\
        D31,\"Queen's Gambit Declined, 3.Nc3\"\n\
        D32,Tarrasch Defense\n\
        D33,\"Tarrasch Defense, Prague Variation\"\n\
        D34,\"Tarrasch Defense, Prague Variation, Main Line\"\n\
        D35,\"Queen's Gambit Declined, Exchange Variation\"\n\
        D36,\"Queen's Gambit Declined, Exchange Variation, Positional Variation\"\n\
        D37,\"Queen's Gambit Declined, Three Knights Variation\"\n\
        D38,\"Queen's Gambit Declined, Ragozin Defense\"\n\
        D39,\"Queen's Gambit Declined, Ragozin Defense, Vienna Variation\"\n\
        D40,Semi-Tarrasch Defense\n\
        D41,\"Semi-Tarrasch Defense, Exchange Variation\"\n\
        D42,\"Semi-Tarrasch Defense, Main Line\"\n\
        D43,Semi-Slav Defense\n\
        D44,\"Semi-Slav Defense, Botvinnik System\"\n\
        D45,\"Semi-Slav Defense, Normal Variation\"\n\
        D46,\"Semi-Slav Defense, Chigorin Defense\"\n\
        D47,\"Semi-Slav Defense, Meran Variation\"\n\
        D48,\"Semi-Slav Defense, Meran Variation, Old Main Line\"\n\
        D49,\"Semi-Slav Defense, Meran Variation, Blumenfeld Variation\"\n\
        D50,\"Queen's Gambit Declined, Modern Variation\"\n\
        D51,\"Queen's Gambit Declined, Modern Variation, Knight Defense\"\n\
        D52,\"Queen's Gambit Declined, Cambridge Springs Defense\"\n\
        D53,\"Queen's Gambit Declined, Modern Variation, Heral Variation\"\n\
        D54,\"Queen's Gambit Declined, Anti-Neo-Orthodox Variation\"\n\
        D55,\"Queen's Gambit Declined, Neo-Orthodox Variation\"\n\
        D56,\"Queen's Gambit Declined, Lasker Defense\"\n\
        D57,\"Queen's Gambit Declined, Lasker Defense, Main Line\"\n\
        D58,\"Queen's Gambit Declined, Tartakower Defense\"\n\
        D59,\"Queen's Gambit Declined, Tartakower Defense, 8.cxd5 Nxd5\"\n\
        D60,\"Queen's Gambit Declined, Orthodox Defense\"\n\
        D61,\"Queen's Gambit Declined, Orthodox Defense, Rubinstein Variation\"\n\
        D62,\"Queen's Gambit Declined, Orthodox Defense, Rubinstein Variation, Flohr Line\"\n\
        D63,\"Queen's Gambit Declined, Orthodox Defense, 7.Rc1\"\n\
        D64,\"Queen's Gambit Declined, Orthodox Defense, Rubinstein Attack\"\n\
        D65,\"Queen's Gambit Declined, Orthodox Defense, Rubinstein Attack, Main Line\"\n\
        D66,\"Queen's Gambit Declined, Orthodox Defense, Main Line\"\n\
        D67,\"Queen's Gambit Declined, Orthodox Defense, Main Line, Capablanca Variation\"\n\
        D68,\"Queen's Gambit Declined, Orthodox Defense, Classical Variation\"\n\
        D69,\"Queen's Gambit Declined, Orthodox Defense, Classical Variation, 13.dxe5\"\n\
        D70,Neo-Gr\u{fc}nfeld Defense\n\
        D71,\"Neo-Gr\u{fc}nfeld Defense, Exchange Variation\"\n\
        D72,\"Neo-Gr\u{fc}nfeld Defense: 5. cxd5, Main Line\"\n\
        D73,Neo-Gr\u{fc}nfeld Defense: 5. Nf3\n\
        D74,\"Neo-Gr\u{fc}nfeld Defense, 6.cxd5 Nxd5 7.O-O\"\n\
        D75,\"Neo-Gr\u{fc}nfeld Defense, 6.cxd5 Nxd5 7.O-O c5 8.Nc3\"\n\
        D76,\"Neo-Gr\u{fc}nfeld Defense, 6.cxd5 Nxd5 7.O-O Nb6\"\n\
        D77,\"Neo-Gr\u{fc}nfeld Defense, Classical Variation\"\n\
        D78,\"Neo-Gr\u{fc}nfeld Defense, Classical Variation, 6...c6\"\n\
        D79,\"Neo-Gr\u{fc}nfeld Defense, Classical Variation, Main Line\"\n\
        D80,Gr\u{fc}nfeld Defense\n\
        D81,\"Gr\u{fc}nfeld Defense, Russian Variation, Accelerated Variation\"\n\
        D82,\"Gr\u{fc}nfeld Defense, Brinckmann Attack\"\n\
        D83,\"Gr\u{fc}nfeld Defense, Brinckmann Attack, Gr\u{fc}nfeld Gambit\"\n\
        D84,\"Gr\u{fc}nfeld Defense, Brinckmann Attack, Gr\u{fc}nfeld Gambit Accepted\"\n\
        D85,\"Gr\u{fc}nfeld Defense, Exchange Variation\"\n\
        D86,\"Gr\u{fc}nfeld Defense, Exchange Variation, Classical Variation\"\n\
        D87,\"Gr\u{fc}nfeld Defense, Exchange Variation, Spassky Variation\"\n\
        D88,\"Gr\u{fc}nfeld Defense, Exchange Variation, Spassky Variation, Main Line\"\n\
        D89,\"Gr\u{fc}nfeld Defense, Exchange Variation, Spassky Variation, 13.Bd3\"\n\
        D90,\"Gr\u{fc}nfeld Defense, Three Knights Variation\"\n\
        D91,\"Gr\u{fc}nfeld Defense, Three Knights Variation, Petrosian System\"\n\
        D92,\"Gr\u{fc}nfeld Defense, Three Knights Variation, Hungarian Attack\"\n\
        D93,\"Gr\u{fc}nfeld Defense, Three Knights Variation, Hungarian Variation\"\n\
        D94,\"Gr\u{fc}nfeld Defense, Flohr Defense\"\n\
        D95,\"Gr\u{fc}nfeld Defense, Botvinnik Variation\"\n\
        D96,\"Gr\u{fc}nfeld Defense, Russian Variation\"\n\
        D97,\"Gr\u{fc}nfeld Defense, Russian Variation, Hungarian Variation\"\n\
        D98,\"Gr\u{fc}nfeld Defense, Russian Variation, Smyslov Variation\"\n\
        D99,\"Gr\u{fc}nfeld Defense, Russian Variation, Smyslov Variation, Main Line\"\n\
        E00,\"Indian Defense, Seirawan Attack\"\n\
        E01,\"Catalan Opening, Closed\"\n\
        E02,\"Catalan Opening, Open Defense, 5.Qa4\"\n\
        E03,\"Catalan Opening, Open Defense, Alekhine Variation\"\n\
        E04,\"Catalan Opening, Open Defense, 5.Nf3\"\n\
        E05,\"Catalan Opening, Open Defense, Classical Line\"\n\
        E06,\"Catalan Opening, Closed Variation, 5.Nf3\"\n\
        E07,\"Catalan Opening, Closed Variation, 6...Nbd7\"\n\
        E08,\"Catalan Opening, Closed Variation, 7.Qc2\"\n\
        E09,\"Catalan Opening, Closed Variation, Main Line\"\n\
        E10,\"Indian Defense, Anti-Nimzo-Indian\"\n\
        E11,Bogo-Indian Defense\n\
        E12,Queen's Indian Defense\n\
        E13,\"Queen's Indian Defense, Kasparov-Petrosian Variation\"\n\
        E14,\"Queen's Indian Defense, Spassky System\"\n\
        E15,\"Queen's Indian Defense, Fianchetto Variation\"\n\
        E16,\"Queen's Indian Defense, Capablanca Variation\"\n\
        E17,\"Queen's Indian Defense, Fianchetto Variation, 5.Bg2 Be7\"\n\
        E18,\"Queen's Indian Defense, Old Main Line, 7.Nc3\"\n\
        E19,\"Queen's Indian Defense, Old Main Line, 9.Qxc3\"\n\
        E20,Nimzo-Indian Defense\n\
        E21,\"Nimzo-Indian Defense, Three Knights Variation\"\n\
        E22,\"Nimzo-Indian Defense, Spielmann Variation\"\n\
        E23,\"Nimzo-Indian Defense, Spielmann Variation, 4...c5 5.dxc5 Nc6\"\n\
        E24,\"Nimzo-Indian Defense, S\u{e4}misch Variation, Accelerated\"\n\
        E25,\"Nimzo-Indian Defense, S\u{e4}misch Variation, Keres Variation\"\n\
        E26,\"Nimzo-Indian Defense, S\u{e4}misch Variation, 5...c5 6.e3\"\n\
        E27,\"Nimzo-Indian Defense, S\u{e4}misch Variation, 5...O-O\"\n\
        E28,\"Nimzo-Indian Defense, S\u{e4}misch Variation, 6.e3\"\n\
        E29,\"Nimzo-Indian Defense, S\u{e4}misch Variation, Main Line\"\n\
        E30,\"Nimzo-Indian Defense, Leningrad Variation\"\n\
        E31,\"Nimzo-Indian Defense, Leningrad Variation, Main Line\"\n\
        E32,\"Nimzo-Indian Defense, Classical Variation\"\n\
        E33,\"Nimzo-Indian Defense, Classical Variation, Milner-Barry Variation\"\n\
        E34,\"Nimzo-Indian Defense, Classical Variation, Noa Variation\"\n\
        E35,\"Nimzo-Indian Defense, Classical Variation, Noa Variation, 5.cxd5 exd5\"\n\
        E36,\"Nimzo-Indian Defense, Classical Variation, Noa Variation, 5.a3\"\n\
        E37,\"Nimzo-Indian Defense, Classical Variation, Noa Variation, Main Line, 7.Qc2\"\n\
        E38,\"Nimzo-Indian Defense, Classical Variation, 4...c5\"\n\
        E39,\"Nimzo-Indian Defense, Classical Variation, Pirc Variation\"\n\
        E40,\"Nimzo-Indian Defense, Normal Variation\"\n\
        E41,\"Nimzo-Indian Defense, H\u{fc}bner Variation\"\n\
        E42,\"Nimzo-Indian Defense, H\u{fc}bner Variation, Rubinstein Variation\"\n\
        E43,\"Nimzo-Indian Defense, St. Petersburg Variation\"\n\
        E44,\"Nimzo-Indian Defense, Fischer Variation, 5.Ne2\"\n\
        E45,\"Nimzo-Indian Defense, St. Petersburg Variation, Bronstein Variation\"\n\
        E46,\"Nimzo-Indian Defense, Normal Variation, 4...O-O\"\n\
        E47,\"Nimzo-Indian Defense, Normal Variation, Bishop Attack\"\n\
        E48,\"Nimzo-Indian Defense, Normal Variation, Bishop Attack, Classical Defense\"\n\
        E49,\"Nimzo-Indian Defense, Normal Variation, Botvinnik System\"\n\
        E50,\"Nimzo-Indian Defense, Normal Variation, 5.Nf3\"\n\
        E51,\"Nimzo-Indian Defense, Normal Variation, Ragozin Variation\"\n\
        E52,\"Nimzo-Indian Defense, Normal Variation, Schlechter Defense\"\n\
        E53,\"Nimzo-Indian Defense, Normal Variation, Gligoric System\"\n\
        E54,\"Nimzo-Indian Defense, Normal Variation, Gligoric System, Exchange at c4\"\n\
        E55,\"Nimzo-Indian Defense, Normal Variation, Gligoric System, Bronstein Variation\"\n\
        E56,\"Nimzo-Indian Defense, Normal Variation, Gligoric System, 7...Nc6\"\n\
        E57,\"Nimzo-Indian Defense: Normal Variation, Gligoric System, Bernstein Defense, 9. Bxc4 cxd4\"\n\
        E58,\"Nimzo-Indian Defense, Normal Variation, Gligoric System, 8...Bxc3\"\n\
        E59,\"Nimzo-Indian Defense, Normal Variation, Gligoric System, Main Line\"\n\
        E60,King's Indian Defense\n\
        E61,\"King's Indian Defense, 3.Nc3\"\n\
        E62,\"King's Indian Defense, Fianchetto Variation\"\n\
        E63,\"King's Indian Defense, Fianchetto Variation, Panno Variation\"\n\
        E64,\"King's Indian Defense, Fianchetto Variation, Yugoslav Variation\"\n\
        E65,\"King's Indian Defense, Fianchetto Variation, Yugoslav Variation, 7.O-O\"\n\
        E66,\"King's Indian Defense, Fianchetto Variation, Yugoslav Panno\"\n\
        E67,\"King's Indian Defense, Fianchetto Variation, Classical Fianchetto\"\n\
        E68,\"King's Indian Defense, Fianchetto Variation, Classical Variation, 8.e4\"\n\
        E69,\"King's Indian Defense, Fianchetto Variation, Classical Main Line\"\n\
        E70,\"King's Indian Defense, Normal Variation\"\n\
        E71,\"King's Indian Defense, Makogonov Variation\"\n\
        E72,\"King's Indian Defense, Normal Variation, Deferred Fianchetto\"\n\
        E73,\"King's Indian Defense, Averbakh Variation\"\n\
        E74,\"King's Indian Defense, Averbakh Variation, Benoni Defense\"\n\
        E75,\"King's Indian Defense, Averbakh Variation, Main Line\"\n\
        E76,\"King's Indian Defense, Four Pawns Attack\"\n\
        E77,\"King's Indian Defense, Four Pawns Attack, 6.Be2\"\n\
        E78,\"King's Indian Defense, Four Pawns Attack, with Be2 and Nf3\"\n\
        E79,\"King's Indian Defense, Four Pawns Attack, Main Line\"\n\
        E80,\"King's Indian Defense, S\u{e4}misch Variation\"\n\
        E81,\"King's Indian Defense, S\u{e4}misch Variation, Normal Defense\"\n\
        E82,\"King's Indian Defense, S\u{e4}misch Variation, Double Fianchetto\"\n\
        E83,\"King's Indian Defense, S\u{e4}misch Variation, Panno Formation\"\n\
        E84,\"King's Indian Defense, S\u{e4}misch Variation, Panno Main Line\"\n\
        E85,\"King's Indian Defense, S\u{e4}misch Variation, Orthodox Variation\"\n\
        E86,\"King's Indian Defense, S\u{e4}misch Variation, Orthodox Variation, 7.Nge2 c6\"\n\
        E87,\"King's Indian Defense, S\u{e4}misch Variation, Orthodox Variation, 7.d5\"\n\
        E88,\"King's Indian Defense: S\u{e4}misch Variation, Orthodox Variation, 7. d5 c6\"\n\
        E89,\"King's Indian Defense, S\u{e4}misch Variation, Orthodox Variation, Main Line\"\n\
        E90,\"King's Indian Defense, Normal Variation, 5.Nf3\"\n\
        E91,\"King's Indian Defense, Kazakh Variation\"\n\
        E92,\"King's Indian Defense, Petrosian Variation\"\n\
        E93,\"King's Indian Defense, Petrosian Variation, Keres Defense\"\n\
        E94,\"King's Indian Defense, Orthodox Variation\"\n\
        E95,\"King's Indian Defense, Orthodox Variation, 7...Nbd7 8.Re1\"\n\
        E96,\"King's Indian Defense, Orthodox Variation, 7...Nbd7, Main Line\"\n\
        E97,\"King's Indian Defense, Orthodox Variation, Aronin-Taimanov Defense\"\n\
        E98,\"King's Indian Defense, Orthodox Variation, Classical System\"\n\
        E99,\"King's Indian Defense, Orthodox Variation, Classical System, Main Line\"\n"@
}

/// The table's text, as the lookups read it.
pub fn eco_openings_csv() -> (res: &'static str)
    ensures
        res@ == eco_csv_text(),
{
    "eco,name\n\
        A00,Irregular Openings\n\
        A01,Nimzovich-Larsen Attack\n\
        A02,Bird's Opening\n\
        A03,\"Bird's Opening, 1...d5\"\n\
        A04,R\u{e9}ti Opening\n\
        A05,\"R\u{e9}ti Opening, 1...Nf6\"\n\
        A06,\"R\u{e9}ti Opening, 1...d5\"\n\
        A07,King's Indian Attack\n\
        A08,\"King's Indian Attack, 2...c5\"\n\
        A09,\"R\u{e9}ti Opening, 2.c4\"\n\
        A10,English Opening\n\
        A11,\"English Opening, Caro-Kann Defensive System\"\n\
        A12,\"English Opening, with b3\"\n\
        A13,\"English Opening, 1...e6\"\n\
        A14,\"English Opening, Agincourt Defense\"\n\
        A15,\"English Opening, Anglo-Indian Defense\"\n\
        A16,\"English Opening, Anglo-Indian Defense, 2.Nc3\"\n\
        A17,\"English Opening, Anglo-Indian Defense, 2...e6\"\n\
        A18,\"English Opening, Mikenas-Carls Variation\"\n\
        A19,\"English Opening, Mikenas-Carls, Sicilian Variation\"\n\
        A20,\"English Opening, King's English Variation\"\n\
        A21,\"English Opening, King's English, 2.Nc3\"\n\
        A22,\"English Opening, King's English, Two Knights Variation\"\n\
        A23,\"English Opening, Bremen System, Keres Variation\"\n\
        A24,\"English Opening, Bremen System with ...g6\"\n\
        A25,\"English Opening, King's English, Reversed Closed Sicilian\"\n\
        A26,\"English Opening, Closed, Botvinnik System\"\n\
        A27,\"English Opening, Three Knights System\"\n\
        A28,\"English Opening, Four Knights Variation\"\n\
        A29,\"English Opening, Four Knights, Kingside Fianchetto\"\n\
        A30,\"English Opening, Symmetrical Variation\"\n\
        A31,\"English Opening, Symmetrical, Benoni Formation\"\n\
        A32,\"English Opening, Symmetrical, Spielmann Defense\"\n\
        A33,\"English Opening, Symmetrical, Four Knights Variation\"\n\
        A34,\"English Opening, Symmetrical, Three Knights Variation\"\n\
        A35,\"English Opening, Symmetrical, Two Knights Variation\"\n\
        A36,\"English Opening, Symmetrical, Botvinnik System\"\n\
        A37,\"English Opening, Symmetrical, Two Knights Line\"\n\
        A38,\"English Opening, Symmetrical, Full Symmetry Line\"\n\
        A39,\"English Opening, Symmetrical, Main Line with d4\"\n\
        A40,Queen's Pawn Game\n\
        A41,\"Queen's Pawn Game, with ...d6\"\n\
        A42,\"Modern Defense, Averbakh System\"\n\
        A43,Old Benoni Defense\n\
        A44,\"Old Benoni Defense, Czech Benoni\"\n\
        A45,Indian Defense\n\
        A46,\"Indian Defense, Knights Variation\"\n\
        A47,\"Queen's Indian Defense, 2.Nf3 b6\"\n\
        A48,East Indian Defense\n\
        A49,\"King's Indian Defense, Fianchetto without c4\"\n\
        A50,\"Indian Defense, 2.c4\"\n\
        A51,Budapest Gambit Declined\n\
        A52,Budapest Gambit\n\
        A53,Old Indian Defense\n\
        A54,\"Old Indian Defense, Ukrainian Variation\"\n\
        A55,\"Old Indian Defense, Main Line\"\n\
        A56,\"Benoni Defense, 3.d5\"\n\
        A57,Benko Gambit\n\
        A58,\"Benko Gambit Accepted, Fully Accepted Variation\"\n\
        A59,\"Benko Gambit Accepted, Main Line\"\n\
        A60,\"Benoni Defense, Modern Variation\"\n\
        A61,\"Benoni Defense, Fianchetto Variation\"\n\
        A62,\"Benoni Defense, Fianchetto Variation, Main Line\"\n\
        A63,\"Benoni Defense, Fianchetto Variation, 9...Nbd7\"\n\
        A64,\"Benoni Defense, Fianchetto Variation, 11...Re8\"\n\
        A65,\"Benoni Defense, King's Pawn Line\"\n\
        A66,\"Benoni Defense, Pawn Storm Variation\"\n\
        A67,\"Benoni Defense, Taimanov Variation\"\n\
        A68,\"Benoni Defense, Four Pawns Attack\"\n\
        A69,\"Benoni Defense, Four Pawns Attack, Main Line\"\n\
        A70,\"Benoni Defense, Classical Variation\"\n\
        A71,\"Benoni Defense, Classical, 8.Bg5\"\n\
        A72,\"Benoni Defense, Classical without 9.O-O\"\n\
        A73,\"Benoni Defense, Classical, 9.O-O\"\n\
        A74,\"Benoni Defense, Classical, 9...a6, 10.a4\"\n\
        A75,\"Benoni Defense, Classical, Argentine Counterattack\"\n\
        A76,\"Benoni Defense, Classical, Main Line\"\n\
        A77,\"Benoni Defense, Classical, 9...Re8, 10.Nd2\"\n\
        A78,\"Benoni Defense, Classical with ...Re8 and ...Na6\"\n\
        A79,\"Benoni Defense, Classical, 11.f3\"\n\
        A80,Dutch Defense\n\
        A81,\"Dutch Defense, Fianchetto Variation\"\n\
        A82,\"Dutch Defense, Staunton Gambit\"\n\
        A83,\"Dutch Defense, Staunton Gambit Accepted\"\n\
        A84,\"Dutch Defense, 2.c4\"\n\
        A85,\"Dutch Defense, Queen's Knight Variation\"\n\
        A86,\"Dutch Defense, Fianchetto Attack\"\n\
        A87,\"Dutch Defense, Leningrad Variation\"\n\
        A88,\"Dutch Defense, Leningrad Variation, Warsaw Variation\"\n\
        A89,\"Dutch Defense, Leningrad Variation, Matulovic Variation\"\n\
        A90,\"Dutch Defense, Classical Variation\"\n\
        A91,\"Dutch Defense, Classical Variation, 4...Be7\"\n\
        A92,\"Dutch Defense, Stonewall Variation\"\n\
        A93,\"Dutch Defense, Stonewall, Botvinnik Variation\"\n\
        A94,\"Dutch Defense, Stonewall with Ba3\"\n\
        A95,\"Dutch Defense, Stonewall, Modern Variation\"\n\
        A96,\"Dutch Defense, Classical Variation, 5...O-O 6.O-O d6\"\n\
        A97,\"Dutch Defense, Ilyin-Zhenevsky Variation\"\n\
        A98,\"Dutch Defense, Ilyin-Zhenevsky Variation, Alatortsev-Lisitsyn Line\"\n\
        A99,\"Dutch Defense, Ilyin-Zhenevsky Variation, Modern Main Line\"\n\
        B00,King's Pawn Game\n\
        B01,Scandinavian Defense\n\
        B02,Alekhine Defense\n\
        B03,\"Alekhine Defense, 3.d4\"\n\
        B04,\"Alekhine Defense, Modern Variation\"\n\
        B05,\"Alekhine Defense, Modern Variation, Main Line\"\n\
        B06,Modern Defense\n\
        B07,Pirc Defense\n\
        B08,\"Pirc Defense, Classical Variation\"\n\
        B09,\"Pirc Defense, Austrian Attack\"\n\
        B10,Caro-Kann Defense\n\
        B11,\"Caro-Kann Defense, Two Knights Attack, Mindeno Variation\"\n\
        B12,\"Caro-Kann Defense, Advance Variation\"\n\
        B13,\"Caro-Kann Defense, Exchange Variation\"\n\
        B14,\"Caro-Kann Defense, Panov Attack\"\n\
        B15,\"Caro-Kann Defense, 3.Nc3\"\n\
        B16,\"Caro-Kann Defense, Bronstein-Larsen Variation\"\n\
        B17,\"Caro-Kann Defense, Karpov Variation\"\n\
        B18,\"Caro-Kann Defense, Classical Variation\"\n\
        B19,\"Caro-Kann Defense, Classical Variation, Main Line\"\n\
        B20,Sicilian Defense\n\
        B21,\"Sicilian Defense, Smith-Morra Gambit\"\n\
        B22,\"Sicilian Defense, Alapin Variation\"\n\
        B23,\"Sicilian Defense, Closed\"\n\
        B24,\"Sicilian Defense, Closed, Fianchetto Variation\"\n\
        B25,\"Sicilian Defense, Closed, 6.f4\"\n\
        B26,\"Sicilian Defense, Closed, 6.Be3\"\n\
        B27,\"Sicilian Defense, 2.Nf3\"\n\
        B28,\"Sicilian Defense, O'Kelly Variation\"\n\
        B29,\"Sicilian Defense, Nimzowitsch Variation\"\n\
        B30,\"Sicilian Defense, Old Sicilian\"\n\
        B31,\"Sicilian Defense, Rossolimo Variation\"\n\
        B32,\"Sicilian Defense, Open\"\n\
        B33,\"Sicilian Defense, Lasker-Pelikan Variation\"\n\
        B34,\"Sicilian Defense, Accelerated Dragon, Exchange Variation\"\n\
        B35,\"Sicilian Defense, Accelerated Dragon, Modern Bc4 Variation\"\n\
        B36,\"Sicilian Defense, Accelerated Dragon, Maroczy Bind\"\n\
        B37,\"Sicilian Defense, Accelerated Dragon, Maroczy Bind, 5...Bg7\"\n\
        B38,\"Sicilian Defense, Accelerated Dragon, Maroczy Bind, 6.Be3\"\n\
        B39,\"Sicilian Defense, Accelerated Dragon, Maroczy Bind, Breyer Variation\"\n\
        B40,\"Sicilian Defense, French Variation\"\n\
        B41,\"Sicilian Defense, Kan Variation\"\n\
        B42,\"Sicilian Defense, Kan Variation, Modern Variation\"\n\
        B43,\"Sicilian Defense, Kan Variation, Wing Attack\"\n\
        B44,\"Sicilian Defense, Taimanov Variation\"\n\
        B45,\"Sicilian Defense, Taimanov Variation, Normal Variation\"\n\
        B46,\"Sicilian Defense, Taimanov Variation, 5...a6\"\n\
        B47,\"Sicilian Defense, Taimanov Variation, Bastrikov Variation\"\n\
        B48,\"Sicilian Defense, Taimanov Variation, 6.Be3\"\n\
        B49,\"Sicilian Defense, Taimanov Variation, 6.Be3 a6 7.Be2\"\n\
        B50,\"Sicilian Defense, Modern Variations\"\n\
        B51,\"Sicilian Defense, Moscow Variation\"\n\
        B52,\"Sicilian Defense, Moscow Variation, 3...Bd7\"\n\
        B53,\"Sicilian Defense, Chekhover Variation\"\n\
        B54,\"Sicilian Defense, Prins Variation\"\n\
        B55,\"Sicilian Defense, Prins Variation, Venice Attack\"\n\
        B56,\"Sicilian Defense, Classical Variation\"\n\
        B57,\"Sicilian Defense, Classical Variation, Sozin Attack\"\n\
        B58,\"Sicilian Defense, Classical Variation, 6.Be2\"\n\
        B59,\"Sicilian Defense, Boleslavsky Variation, 7.Nb3\"\n\
        B60,\"Sicilian Defense, Richter-Rauzer Variation\"\n\
        B61,\"Sicilian Defense, Richter-Rauzer Variation, Larsen Variation\"\n\
        B62,\"Sicilian Defense, Richter-Rauzer Variation, 6...e6\"\n\
        B63,\"Sicilian Defense, Richter-Rauzer Variation, Traditional Line\"\n\
        B64,\"Sicilian Defense, Richter-Rauzer Variation, Traditional Line, 9.f4\"\n\
        B65,\"Sicilian Defense, Richter-Rauzer Variation, Traditional Line, 9...Nxd4\"\n\
        B66,\"Sicilian Defense, Richter-Rauzer Variation, Modern Line\"\n\
        B67,\"Sicilian Defense, Richter-Rauzer Variation, Modern Line, 8...Bd7\"\n\
        B68,\"Sicilian Defense, Richter-Rauzer Variation, Modern Line, 9...Be7\"\n\
        B69,\"Sicilian Defense, Richter-Rauzer Variation, Modern Line, 11.Bxf6\"\n\
        B70,\"Sicilian Defense, Dragon Variation\"\n\
        B71,\"Sicilian Defense, Dragon Variation, Levenfish Variation\"\n\
        B72,\"Sicilian Defense, Dragon Variation, 6.Be3\"\n\
        B73,\"Sicilian Defense, Dragon Variation, Classical Variation\"\n\
        B74,\"Sicilian Defense, Dragon Variation, Classical Variation, Normal Line\"\n\
        B75,\"Sicilian Defense, Dragon Variation, Yugoslav Attack\"\n\
        B76,\"Sicilian Defense, Dragon Variation, Yugoslav Attack, 7...O-O\"\n\
        B77,\"Sicilian Defense, Dragon Variation, Yugoslav Attack, 9.Bc4\"\n\
        B78,\"Sicilian Defense, Dragon Variation, Yugoslav Attack, 10.O-O-O\"\n\
        B79,\"Sicilian Defense, Dragon Variation, Yugoslav Attack, 12.h4\"\n\
        B80,\"Sicilian Defense, Scheveningen Variation\"\n\
        B81,\"Sicilian Defense, Scheveningen Variation, Keres Attack\"\n\
        B82,\"Sicilian Defense, Scheveningen Variation, 6.f4\"\n\
        B83,\"Sicilian Defense, Scheveningen Variation, 6.Be2\"\n\
        B84,\"Sicilian Defense, Scheveningen Variation, Classical Variation\"\n\
        B85,\"Sicilian Defense, Scheveningen Variation, Classical Main Line\"\n\
        B86,\"Sicilian Defense, Sozin Attack\"\n\
        B87,\"Sicilian Defense, Sozin Attack, Flank Variation\"\n\
        B88,\"Sicilian Defense, Sozin Attack, Leonhardt Variation\"\n\
        B89,\"Sicilian Defense, Sozin Attack, 7.Be3\"\n\
        B90,\"Sicilian Defense, Najdorf Variation\"\n\
        B91,\"Sicilian Defense, Najdorf Variation, Zagreb Variation\"\n\
        B92,\"Sicilian Defense, Najdorf Variation, Opocensky Variation\"\n\
        B93,\"Sicilian Defense, Najdorf Variation, 6.f4\"\n\
        B94,\"Sicilian Defense, Najdorf Variation, 6.Bg5\"\n\
        B95,\"Sicilian Defense, Najdorf Variation, 6...e6\"\n\
        B96,\"Sicilian Defense, Najdorf Variation, 7.f4\"\n\
        B97,\"Sicilian Defense, Najdorf Variation, Poisoned Pawn Variation\"\n\
        B98,\"Sicilian Defense, Najdorf Variation, 7...Be7\"\n\
        B99,\"Sicilian Defense, Najdorf Variation, Main Line\"\n\
        C00,French Defense\n\
        C01,\"French Defense, Exchange Variation\"\n\
        C02,\"French Defense, Advance Variation\"\n\
        C03,\"French Defense, Tarrasch Variation\"\n\
        C04,\"French Defense, Tarrasch Variation, Guimard Defense\"\n\
        C05,\"French Defense, Tarrasch Variation, Closed Variation\"\n\
        C06,\"French Defense, Tarrasch Variation, Closed Variation, Main Line\"\n\
        C07,\"French Defense, Tarrasch Variation, Open System\"\n\
        C08,\"French Defense, Tarrasch Variation, Open System, 4.exd5 exd5\"\n\
        C09,\"French Defense, Tarrasch Variation, Open System, Main Line\"\n\
        C10,\"French Defense, Paulsen Variation\"\n\
        C11,\"French Defense, Classical Variation\"\n\
        C12,\"French Defense, MacCutcheon Variation\"\n\
        C13,\"French Defense, Alekhine-Chatard Attack\"\n\
        C14,\"French Defense, Classical Variation, Main Line\"\n\
        C15,\"French Defense, Winawer Variation\"\n\
        C16,\"French Defense, Winawer Variation, Advance Variation\"\n\
        C17,\"French Defense, Winawer Variation, Bogoljubow Variation\"\n\
        C18,\"French Defense, Winawer Variation, Classical Variation\"\n\
        C19,\"French Defense, Winawer Variation, Poisoned Pawn Variation\"\n\
        C20,Open Game\n\
        C21,Center Game\n\
        C22,\"Center Game, Paulsen Attack\"\n\
        C23,Bishop's Opening\n\
        C24,\"Bishop's Opening, Berlin Defense\"\n\
        C25,Vienna Game\n\
        C26,\"Vienna Game, Falkbeer Variation\"\n\
        C27,\"Vienna Game, Frankenstein-Dracula Variation\"\n\
        C28,\"Vienna Game, Vienna Gambit, 3.Bc4 Nc6\"\n\
        C29,\"Vienna Game, Vienna Gambit\"\n\
        C30,King's Gambit\n\
        C31,\"King's Gambit Declined, Falkbeer Countergambit\"\n\
        C32,\"King's Gambit Declined, Falkbeer Countergambit, 5.dxe4\"\n\
        C33,King's Gambit Accepted\n\
        C34,\"King's Gambit Accepted, King's Knight's Gambit\"\n\
        C35,\"King's Gambit Accepted, Cunningham Defense\"\n\
        C36,\"King's Gambit Accepted, Abbazia Defense\"\n\
        C37,\"King's Gambit Accepted, Quaade Gambit\"\n\
        C38,\"King's Gambit Accepted, Traditional Variation\"\n\
        C39,\"King's Gambit Accepted, Allgaier and Kieseritzky Gambits\"\n\
        C40,King's Knight Opening\n\
        C41,Philidor Defense\n\
        C42,Petrov's Defense\n\
        C43,\"Petrov's Defense, Modern Attack\"\n\
        C44,\"King's Knight Opening, Normal Variation\"\n\
        C45,Scotch Game\n\
        C46,Three Knights Opening\n\
        C47,\"Four Knights Game, Scotch Variation\"\n\
        C48,\"Four Knights Game, Spanish Variation\"\n\
        C49,\"Four Knights Game, Double Spanish\"\n\
        C50,Italian Game\n\
        C51,\"Italian Game, Evans Gambit\"\n\
        C52,\"Italian Game, Evans Gambit, Main Line\"\n\
        C53,\"Italian Game, Classical Variation\"\n\
        C54,\"Italian Game, Classical Variation, Giuoco Pianissimo\"\n\
        C55,\"Italian Game, Two Knights Defense\"\n\
        C56,\"Italian Game, Two Knights Defense, Scotch Gambit\"\n\
        C57,\"Italian Game, Two Knights Defense, Fried Liver Attack\"\n\
        C58,\"Italian Game, Two Knights Defense, 5.Na4\"\n\
        C59,\"Italian Game, Two Knights Defense, Knorre Variation\"\n\
        C60,Ruy Lopez\n\
        C61,\"Ruy Lopez, Bird Variation\"\n\
        C62,\"Ruy Lopez, Steinitz Defense\"\n\
        C63,\"Ruy Lopez, Schliemann Defense\"\n\
        C64,\"Ruy Lopez, Classical Variation\"\n\
        C65,\"Ruy Lopez, Berlin Defense\"\n\
        C66,\"Ruy Lopez, Berlin Defense, Improved Steinitz Defense\"\n\
        C67,\"Ruy Lopez, Berlin Defense, Rio de Janeiro Variation\"\n\
        C68,\"Ruy Lopez, Exchange Variation\"\n\
        C69,\"Ruy Lopez, Exchange Variation, 5.O-O\"\n\
        C70,\"Ruy Lopez, Morphy Defense\"\n\
        C71,\"Ruy Lopez, Morphy Defense, Modern Steinitz Defense\"\n\
        C72,\"Ruy Lopez, Morphy Defense, Modern Steinitz Defense, 5.O-O\"\n\
        C73,\"Ruy Lopez, Morphy Defense, Modern Steinitz Defense, Richter Variation\"\n\
        C74,\"Ruy Lopez, Morphy Defense, Modern Steinitz Defense, 5.c3\"\n\
        C75,\"Ruy Lopez, Morphy Defense, Modern Steinitz Defense, 5.c3 Bd7\"\n\
        C76,\"Ruy Lopez, Morphy Defense, Modern Steinitz Defense, Fianchetto Variation\"\n\
        C77,\"Ruy Lopez, Morphy Defense, Anderssen Variation\"\n\
        C78,\"Ruy Lopez, Morphy Defense, 5.O-O\"\n\
        C79,\"Ruy Lopez, Morphy Defense, Steinitz Deferred\"\n\
        C80,\"Ruy Lopez, Open\"\n\
        C81,\"Ruy Lopez, Open, Howell Attack\"\n\
        C82,\"Ruy Lopez, Open, 9.c3\"\n\
        C83,\"Ruy Lopez, Open, Classical Defense\"\n\
        C84,\"Ruy Lopez, Closed\"\n\
        C85,\"Ruy Lopez, Closed, Delayed Exchange\"\n\
        C86,\"Ruy Lopez, Closed, Worrall Attack\"\n\
        C87,\"Ruy Lopez, Closed, Averbakh Variation\"\n\
        C88,\"Ruy Lopez, Closed, 7...O-O\"\n\
        C89,\"Ruy Lopez, Marshall Attack\"\n\
        C90,\"Ruy Lopez, Closed, 7...d6\"\n\
        C91,\"Ruy Lopez, Closed, 9.d4\"\n\
        C92,\"Ruy Lopez, Closed, 9.h3\"\n\
        C93,\"Ruy Lopez, Closed, Smyslov Defense\"\n\
        C94,\"Ruy Lopez, Closed, Breyer Defense\"\n\
        C95,\"Ruy Lopez, Closed, Breyer Defense, 10.d4\"\n\
        C96,\"Ruy Lopez, Closed, 8...Na5\"\n\
        C97,\"Ruy Lopez, Closed, Chigorin Defense\"\n\
        C98,\"Ruy Lopez, Closed, Chigorin Defense, 12...Nc6\"\n\
        C99,\"Ruy Lopez, Closed, Chigorin Defense, 12...cxd4\"\n\
        D00,Queen's Pawn Game\n\
        D01,Richter-Veresov Attack\n\
        D02,\"Queen's Pawn Game, 2.Nf3\"\n\
        D03,Torre Attack\n\
        D04,\"Queen's Pawn Game, Colle System\"\n\
        D05,\"Queen's Pawn Game, Colle System, 4...e6\"\n\
        D06,Queen's Gambit\n\
        D07,\"Queen's Gambit Declined, Chigorin Defense\"\n\
        D08,\"Queen's Gambit Declined, Albin Countergambit\"\n\
        D09,\"Queen's Gambit Declined, Albin Countergambit, Fianchetto Variation\"\n\
        D10,Slav Defense\n\
        D11,\"Slav Defense, Modern Line\"\n\
        D12,\"Slav Defense, Quiet Variation\"\n\
        D13,\"Slav Defense, Exchange Variation\"\n\
        D14,\"Slav Defense, Exchange Variation, Symmetrical Line\"\n\
        D15,\"Slav Defense, Three Knights Variation\"\n\
        D16,\"Slav Defense, Alapin Variation\"\n\
        D17,\"Slav Defense, Czech Variation\"\n\
        D18,\"Slav Defense, Czech Variation, Classical System\"\n\
        D19,\"Slav Defense, Czech Variation, Main Line\"\n\
        D20,Queen's Gambit Accepted\n\
        D21,\"Queen's Gambit Accepted, 3.Nf3\"\n\
        D22,\"Queen's Gambit Accepted, Alekhine Defense\"\n\
        D23,\"Queen's Gambit Accepted, 3.Nf3 Nf6\"\n\
        D24,\"Queen's Gambit Accepted, 4.Nc3\"\n\
        D25,\"Queen's Gambit Accepted, 4.e3\"\n\
        D26,\"Queen's Gambit Accepted, Classical Defense\"\n\
        D27,\"Queen's Gambit Accepted, Classical Defense, Main Line\"\n\
        D28,\"Queen's Gambit Accepted, Classical Defense, 7.Qe2\"\n\
        D29,\"Queen's Gambit Accepted, Classical Defense, 8...Bb7\"\n\
        D30,Queen's Gambit Declined\n\
        D31,\"Queen's Gambit Declined, 3.Nc3\"\n\
        D32,Tarrasch Defense\n\
        D33,\"Tarrasch Defense, Prague Variation\"\n\
        D34,\"Tarrasch Defense, Prague Variation, Main Line\"\n\
        D35,\"Queen's Gambit Declined, Exchange Variation\"\n\
        D36,\"Queen's Gambit Declined, Exchange Variation, Positional Variation\"\n\
        D37,\"Queen's Gambit Declined, Three Knights Variation\"\n\
        D38,\"Queen's Gambit Declined, Ragozin Defense\"\n\
        D39,\"Queen's Gambit Declined, Ragozin Defense, Vienna Variation\"\n\
        D40,Semi-Tarrasch Defense\n\
        D41,\"Semi-Tarrasch Defense, Exchange Variation\"\n\
        D42,\"Semi-Tarrasch Defense, Main Line\"\n\
        D43,Semi-Slav Defense\n\
        D44,\"Semi-Slav Defense, Botvinnik System\"\n\
        D45,\"Semi-Slav Defense, Normal Variation\"\n\
        D46,\"Semi-Slav Defense, Chigorin Defense\"\n\
        D47,\"Semi-Slav Defense, Meran Variation\"\n\
        D48,\"Semi-Slav Defense, Meran Variation, Old Main Line\"\n\
        D49,\"Semi-Slav Defense, Meran Variation, Blumenfeld Variation\"\n\
        D50,\"Queen's Gambit Declined, Modern Variation\"\n\
        D51,\"Queen's Gambit Declined, Modern Variation, Knight Defense\"\n\
        D52,\"Queen's Gambit Declined, Cambridge Springs Defense\"\n\
        D53,\"Queen's Gambit Declined, Modern Variation, Heral Variation\"\n\
        D54,\"Queen's Gambit Declined, Anti-Neo-Orthodox Variation\"\n\
        D55,\"Queen's Gambit Declined, Neo-Orthodox Variation\"\n\
        D56,\"Queen's Gambit Declined, Lasker Defense\"\n\
        D57,\"Queen's Gambit Declined, Lasker Defense, Main Line\"\n\
        D58,\"Queen's Gambit Declined, Tartakower Defense\"\n\
        D59,\"Queen's Gambit Declined, Tartakower Defense, 8.cxd5 Nxd5\"\n\
        D60,\"Queen's Gambit Declined, Orthodox Defense\"\n\
        D61,\"Queen's Gambit Declined, Orthodox Defense, Rubinstein Variation\"\n\
        D62,\"Queen's Gambit Declined, Orthodox Defense, Rubinstein Variation, Flohr Line\"\n\
        D63,\"Queen's Gambit Declined, Orthodox Defense, 7.Rc1\"\n\
        D64,\"Queen's Gambit Declined, Orthodox Defense, Rubinstein Attack\"\n\
        D65,\"Queen's Gambit Declined, Orthodox Defense, Rubinstein Attack, Main Line\"\n\
        D66,\"Queen's Gambit Declined, Orthodox Defense, Main Line\"\n\
        D67,\"Queen's Gambit Declined, Orthodox Defense, Main Line, Capablanca Variation\"\n\
        D68,\"Queen's Gambit Declined, Orthodox Defense, Classical Variation\"\n\
        D69,\"Queen's Gambit Declined, Orthodox Defense, Classical Variation, 13.dxe5\"\n\
        D70,Neo-Gr\u{fc}nfeld Defense\n\
        D71,\"Neo-Gr\u{fc}nfeld Defense, Exchange Variation\"\n\
        D72,\"Neo-Gr\u{fc}nfeld Defense: 5. cxd5, Main Line\"\n\
        D73,Neo-Gr\u{fc}nfeld Defense: 5. Nf3\n\
        D74,\"Neo-Gr\u{fc}nfeld Defense, 6.cxd5 Nxd5 7.O-O\"\n\
        D75,\"Neo-Gr\u{fc}nfeld Defense, 6.cxd5 Nxd5 7.O-O c5 8.Nc3\"\n\
        D76,\"Neo-Gr\u{fc}nfeld Defense, 6.cxd5 Nxd5 7.O-O Nb6\"\n\
        D77,\"Neo-Gr\u{fc}nfeld Defense, Classical Variation\"\n\
        D78,\"Neo-Gr\u{fc}nfeld Defense, Classical Variation, 6...c6\"\n\
        D79,\"Neo-Gr\u{fc}nfeld Defense, Classical Variation, Main Line\"\n\
        D80,Gr\u{fc}nfeld Defense\n\
        D81,\"Gr\u{fc}nfeld Defense, Russian Variation, Accelerated Variation\"\n\
        D82,\"Gr\u{fc}nfeld Defense, Brinckmann Attack\"\n\
        D83,\"Gr\u{fc}nfeld Defense, Brinckmann Attack, Gr\u{fc}nfeld Gambit\"\n\
        D84,\"Gr\u{fc}nfeld Defense, Brinckmann Attack, Gr\u{fc}nfeld Gambit Accepted\"\n\
        D85,\"Gr\u{fc}nfeld Defense, Exchange Variation\"\n\
        D86,\"Gr\u{fc}nfeld Defense, Exchange Variation, Classical Variation\"\n\
        D87,\"Gr\u{fc}nfeld Defense, Exchange Variation, Spassky Variation\"\n\
        D88,\"Gr\u{fc}nfeld Defense, Exchange Variation, Spassky Variation, Main Line\"\n\
        D89,\"Gr\u{fc}nfeld Defense, Exchange Variation, Spassky Variation, 13.Bd3\"\n\
        D90,\"Gr\u{fc}nfeld Defense, Three Knights Variation\"\n\
        D91,\"Gr\u{fc}nfeld Defense, Three Knights Variation, Petrosian System\"\n\
        D92,\"Gr\u{fc}nfeld Defense, Three Knights Variation, Hungarian Attack\"\n\
        D93,\"Gr\u{fc}nfeld Defense, Three Knights Variation, Hungarian Variation\"\n\
        D94,\"Gr\u{fc}nfeld Defense, Flohr Defense\"\n\
        D95,\"Gr\u{fc}nfeld Defense, Botvinnik Variation\"\n\
        D96,\"Gr\u{fc}nfeld Defense, Russian Variation\"\n\
        D97,\"Gr\u{fc}nfeld Defense, Russian Variation, Hungarian Variation\"\n\
        D98,\"Gr\u{fc}nfeld Defense, Russian Variation, Smyslov Variation\"\n\
        D99,\"Gr\u{fc}nfeld Defense, Russian Variation, Smyslov Variation, Main Line\"\n\
        E00,\"Indian Defense, Seirawan Attack\"\n\
        E01,\"Catalan Opening, Closed\"\n\
        E02,\"Catalan Opening, Open Defense, 5.Qa4\"\n\
        E03,\"Catalan Opening, Open Defense, Alekhine Variation\"\n\
        E04,\"Catalan Opening, Open Defense, 5.Nf3\"\n\
        E05,\"Catalan Opening, Open Defense, Classical Line\"\n\
        E06,\"Catalan Opening, Closed Variation, 5.Nf3\"\n\
        E07,\"Catalan Opening, Closed Variation, 6...Nbd7\"\n\
        E08,\"Catalan Opening, Closed Variation, 7.Qc2\"\n\
        E09,\"Catalan Opening, Closed Variation, Main Line\"\n\
        E10,\"Indian Defense, Anti-Nimzo-Indian\"\n\
        E11,Bogo-Indian Defense\n\
        E12,Queen's Indian Defense\n\
        E13,\"Queen's Indian Defense, Kasparov-Petrosian Variation\"\n\
        E14,\"Queen's Indian Defense, Spassky System\"\n\
        E15,\"Queen's Indian Defense, Fianchetto Variation\"\n\
        E16,\"Queen's Indian Defense, Capablanca Variation\"\n\
        E17,\"Queen's Indian Defense, Fianchetto Variation, 5.Bg2 Be7\"\n\
        E18,\"Queen's Indian Defense, Old Main Line, 7.Nc3\"\n\
        E19,\"Queen's Indian Defense, Old Main Line, 9.Qxc3\"\n\
        E20,Nimzo-Indian Defense\n\
        E21,\"Nimzo-Indian Defense, Three Knights Variation\"\n\
        E22,\"Nimzo-Indian Defense, Spielmann Variation\"\n\
        E23,\"Nimzo-Indian Defense, Spielmann Variation, 4...c5 5.dxc5 Nc6\"\n\
        E24,\"Nimzo-Indian Defense, S\u{e4}misch Variation, Accelerated\"\n\
        E25,\"Nimzo-Indian Defense, S\u{e4}misch Variation, Keres Variation\"\n\
        E26,\"Nimzo-Indian Defense, S\u{e4}misch Variation, 5...c5 6.e3\"\n\
        E27,\"Nimzo-Indian Defense, S\u{e4}misch Variation, 5...O-O\"\n\
        E28,\"Nimzo-Indian Defense, S\u{e4}misch Variation, 6.e3\"\n\
        E29,\"Nimzo-Indian Defense, S\u{e4}misch Variation, Main Line\"\n\
        E30,\"Nimzo-Indian Defense, Leningrad Variation\"\n\
        E31,\"Nimzo-Indian Defense, Leningrad Variation, Main Line\"\n\
        E32,\"Nimzo-Indian Defense, Classical Variation\"\n\
        E33,\"Nimzo-Indian Defense, Classical Variation, Milner-Barry Variation\"\n\
        E34,\"Nimzo-Indian Defense, Classical Variation, Noa Variation\"\n\
        E35,\"Nimzo-Indian Defense, Classical Variation, Noa Variation, 5.cxd5 exd5\"\n\
        E36,\"Nimzo-Indian Defense, Classical Variation, Noa Variation, 5.a3\"\n\
        E37,\"Nimzo-Indian Defense, Classical Variation, Noa Variation, Main Line, 7.Qc2\"\n\
        E38,\"Nimzo-Indian Defense, Classical Variation, 4...c5\"\n\
        E39,\"Nimzo-Indian Defense, Classical Variation, Pirc Variation\"\n\
        E40,\"Nimzo-Indian Defense, Normal Variation\"\n\
        E41,\"Nimzo-Indian Defense, H\u{fc}bner Variation\"\n\
        E42,\"Nimzo-Indian Defense, H\u{fc}bner Variation, Rubinstein Variation\"\n\
        E43,\"Nimzo-Indian Defense, St. Petersburg Variation\"\n\
        E44,\"Nimzo-Indian Defense, Fischer Variation, 5.Ne2\"\n\
        E45,\"Nimzo-Indian Defense, St. Petersburg Variation, Bronstein Variation\"\n\
        E46,\"Nimzo-Indian Defense, Normal Variation, 4...O-O\"\n\
        E47,\"Nimzo-Indian Defense, Normal Variation, Bishop Attack\"\n\
        E48,\"Nimzo-Indian Defense, Normal Variation, Bishop Attack, Classical Defense\"\n\
        E49,\"Nimzo-Indian Defense, Normal Variation, Botvinnik System\"\n\
        E50,\"Nimzo-Indian Defense, Normal Variation, 5.Nf3\"\n\
        E51,\"Nimzo-Indian Defense, Normal Variation, Ragozin Variation\"\n\
        E52,\"Nimzo-Indian Defense, Normal Variation, Schlechter Defense\"\n\
        E53,\"Nimzo-Indian Defense, Normal Variation, Gligoric System\"\n\
        E54,\"Nimzo-Indian Defense, Normal Variation, Gligoric System, Exchange at c4\"\n\
        E55,\"Nimzo-Indian Defense, Normal Variation, Gligoric System, Bronstein Variation\"\n\
        E56,\"Nimzo-Indian Defense, Normal Variation, Gligoric System, 7...Nc6\"\n\
        E57,\"Nimzo-Indian Defense: Normal Variation, Gligoric System, Bernstein Defense, 9. Bxc4 cxd4\"\n\
        E58,\"Nimzo-Indian Defense, Normal Variation, Gligoric System, 8...Bxc3\"\n\
        E59,\"Nimzo-Indian Defense, Normal Variation, Gligoric System, Main Line\"\n\
        E60,King's Indian Defense\n\
        E61,\"King's Indian Defense, 3.Nc3\"\n\
        E62,\"King's Indian Defense, Fianchetto Variation\"\n\
        E63,\"King's Indian Defense, Fianchetto Variation, Panno Variation\"\n\
        E64,\"King's Indian Defense, Fianchetto Variation, Yugoslav Variation\"\n\
        E65,\"King's Indian Defense, Fianchetto Variation, Yugoslav Variation, 7.O-O\"\n\
        E66,\"King's Indian Defense, Fianchetto Variation, Yugoslav Panno\"\n\
        E67,\"King's Indian Defense, Fianchetto Variation, Classical Fianchetto\"\n\
        E68,\"King's Indian Defense, Fianchetto Variation, Classical Variation, 8.e4\"\n\
        E69,\"King's Indian Defense, Fianchetto Variation, Classical Main Line\"\n\
        E70,\"King's Indian Defense, Normal Variation\"\n\
        E71,\"King's Indian Defense, Makogonov Variation\"\n\
        E72,\"King's Indian Defense, Normal Variation, Deferred Fianchetto\"\n\
        E73,\"King's Indian Defense, Averbakh Variation\"\n\
        E74,\"King's Indian Defense, Averbakh Variation, Benoni Defense\"\n\
        E75,\"King's Indian Defense, Averbakh Variation, Main Line\"\n\
        E76,\"King's Indian Defense, Four Pawns Attack\"\n\
        E77,\"King's Indian Defense, Four Pawns Attack, 6.Be2\"\n\
        E78,\"King's Indian Defense, Four Pawns Attack, with Be2 and Nf3\"\n\
        E79,\"King's Indian Defense, Four Pawns Attack, Main Line\"\n\
        E80,\"King's Indian Defense, S\u{e4}misch Variation\"\n\
        E81,\"King's Indian Defense, S\u{e4}misch Variation, Normal Defense\"\n\
        E82,\"King's Indian Defense, S\u{e4}misch Variation, Double Fianchetto\"\n\
        E83,\"King's Indian Defense, S\u{e4}misch Variation, Panno Formation\"\n\
        E84,\"King's Indian Defense, S\u{e4}misch Variation, Panno Main Line\"\n\
        E85,\"King's Indian Defense, S\u{e4}misch Variation, Orthodox Variation\"\n\
        E86,\"King's Indian Defense, S\u{e4}misch Variation, Orthodox Variation, 7.Nge2 c6\"\n\
        E87,\"King's Indian Defense, S\u{e4}misch Variation, Orthodox Variation, 7.d5\"\n\
        E88,\"King's Indian Defense: S\u{e4}misch Variation, Orthodox Variation, 7. d5 c6\"\n\
        E89,\"King's Indian Defense, S\u{e4}misch Variation, Orthodox Variation, Main Line\"\n\
        E90,\"King's Indian Defense, Normal Variation, 5.Nf3\"\n\
        E91,\"King's Indian Defense, Kazakh Variation\"\n\
        E92,\"King's Indian Defense, Petrosian Variation\"\n\
        E93,\"King's Indian Defense, Petrosian Variation, Keres Defense\"\n\
        E94,\"King's Indian Defense, Orthodox Variation\"\n\
        E95,\"King's Indian Defense, Orthodox Variation, 7...Nbd7 8.Re1\"\n\
        E96,\"King's Indian Defense, Orthodox Variation, 7...Nbd7, Main Line\"\n\
        E97,\"King's Indian Defense, Orthodox Variation, Aronin-Taimanov Defense\"\n\
        E98,\"King's Indian Defense, Orthodox Variation, Classical System\"\n\
        E99,\"King's Indian Defense, Orthodox Variation, Classical System, Main Line\"\n"
}

} // verus!
