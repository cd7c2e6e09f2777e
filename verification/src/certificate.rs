//! A certificate that the field characteristic `p = 5 * 2^248 - 1` is
//! prime: a chain of Pocklington steps with base 2, each checked on
//! constants, down to two primes checked by trial division.
use vstd::prelude::*;
use crate::field_spec::modulus;
use crate::prime::{
    is_prime, lemma_no_divisor_from, lemma_pocklington, lemma_pocklington2, lemma_pow_mod_bit,
    lemma_pow_mod_zero, lemma_prime_by_trial, no_divisor_from, pock_residue, pow_mod,
};

verus! {

/// Square-and-multiply for `2^2261564242916331941866620800950935700259179388000792266395655937654553313278 mod 2261564242916331941866620800950935700259179388000792266395655937654553313279`, up to the exponent `40959`.
proof fn pow_p_full_0()
    ensures
        pow_mod(2, 40959nat, 2261564242916331941866620800950935700259179388000792266395655937654553313279nat) == 671773507090556532914474860991067368841267000903768592439786557261333087165nat,
{
    lemma_pow_mod_zero(2, 2261564242916331941866620800950935700259179388000792266395655937654553313279nat);
    lemma_pow_mod_bit(2, 1nat, 2261564242916331941866620800950935700259179388000792266395655937654553313279nat, 0nat, 1nat, 1nat, 0nat, 1nat, 0nat, 2nat);
    lemma_pow_mod_bit(2, 2nat, 2261564242916331941866620800950935700259179388000792266395655937654553313279nat, 1nat, 0nat, 2nat, 0nat, 4nat, 0nat, 4nat);
    lemma_pow_mod_bit(2, 4nat, 2261564242916331941866620800950935700259179388000792266395655937654553313279nat, 2nat, 0nat, 4nat, 0nat, 16nat, 0nat, 16nat);
    lemma_pow_mod_bit(2, 9nat, 2261564242916331941866620800950935700259179388000792266395655937654553313279nat, 4nat, 1nat, 16nat, 0nat, 256nat, 0nat, 512nat);
    lemma_pow_mod_bit(2, 19nat, 2261564242916331941866620800950935700259179388000792266395655937654553313279nat, 9nat, 1nat, 512nat, 0nat, 262144nat, 0nat, 524288nat);
    lemma_pow_mod_bit(2, 39nat, 2261564242916331941866620800950935700259179388000792266395655937654553313279nat, 19nat, 1nat, 524288nat, 0nat, 274877906944nat, 0nat, 549755813888nat);
    lemma_pow_mod_bit(2, 79nat, 2261564242916331941866620800950935700259179388000792266395655937654553313279nat, 39nat, 1nat, 549755813888nat, 0nat, 302231454903657293676544nat, 0nat, 604462909807314587353088nat);
    lemma_pow_mod_bit(2, 159nat, 2261564242916331941866620800950935700259179388000792266395655937654553313279nat, 79nat, 1nat, 604462909807314587353088nat, 0nat, 365375409332725729550921208179070754913983135744nat, 0nat, 730750818665451459101842416358141509827966271488nat);
    lemma_pow_mod_bit(2, 319nat, 2261564242916331941866620800950935700259179388000792266395655937654553313279nat, 159nat, 1nat, 730750818665451459101842416358141509827966271488nat, 236118324143482260684nat, 1809251394333065553493296640760748560207343510400633813352643074267124911308nat, 1nat, 1356938545749799165119972480570561420155507632800475360309630210879696509337nat);
    lemma_pow_mod_bit(2, 639nat, 2261564242916331941866620800950935700259179388000792266395655937654553313279nat, 319nat, 1nat, 1356938545749799165119972480570561420155507632800475360309630210879696509337nat, 814163127449879499071983488342336852093304579680285216469120115499996618423nat, 2171101673199678664191955968912898495256264197786991991097012426631986240552nat, 1nat, 2080639103483025386517291136874861290253349007573191715798368915609419167825nat);
    lemma_pow_mod_bit(2, 1279nat, 2261564242916331941866620800950935700259179388000792266395655937654553313279nat, 639nat, 1nat, 2080639103483025386517291136874861290253349007573191715798368915609419167825nat, 1914187975204383355595907845924872797366792739930802182791715619090605305368nat, 1982215827631306620407255799617476122563165549994934405650464516235550848953nat, 1nat, 1702867412346281298947890798284016544867151711989076544905273094816548384627nat);
    lemma_pow_mod_bit(2, 2559nat, 2261564242916331941866620800950935700259179388000792266395655937654553313279nat, 1279nat, 1nat, 1702867412346281298947890798284016544867151711989076544905273094816548384627nat, 1282191046800255966855803855475933097623170553059295075251874429473200733812nat, 1777487076829306500132311801011195275949218781667185962308123615264406039581nat, 1nat, 1293409910742281058398002801071454851639258175333579658220591292874258765883nat);
    lemma_pow_mod_bit(2, 5119nat, 2261564242916331941866620800950935700259179388000792266395655937654553313279nat, 2559nat, 1nat, 1293409910742281058398002801071454851639258175333579658220591292874258765883nat, 739713321187421086929811531584771290471669124087944711258545537031963554787nat, 549603196623862111730601563969730999640778354550850381369914463260513653116nat, 0nat, 1099206393247724223461203127939461999281556709101700762739828926521027306232nat);
    lemma_pow_mod_bit(2, 10239nat, 2261564242916331941866620800950935700259179388000792266395655937654553313279nat, 5119nat, 1nat, 1099206393247724223461203127939461999281556709101700762739828926521027306232nat, 534256189600257456515680073315227494633990905030981136925282411173517584344nat, 1057850691442158892622361828146894546076489370909892792046991761840768333848nat, 0nat, 2115701382884317785244723656293789092152978741819785584093983523681536667696nat);
    lemma_pow_mod_bit(2, 20479nat, 2261564242916331941866620800950935700259179388000792266395655937654553313279nat, 10239nat, 1nat, 2115701382884317785244723656293789092152978741819785584093983523681536667696nat, 1979246159183378249152713736275994820155057442695033362934999366359105995947nat, 867420143307750023433982641251848039491727320003698187146087511703934668203nat, 0nat, 1734840286615500046867965282503696078983454640007396374292175023407869336406nat);
    lemma_pow_mod_bit(2, 40959nat, 2261564242916331941866620800950935700259179388000792266395655937654553313279nat, 20479nat, 1nat, 1734840286615500046867965282503696078983454640007396374292175023407869336406nat, 1330791654268074269581748957662115684726855738255091689087747701847106543866nat, 1466668875003444237390547830971001534550223194452280429417721247457943200222nat, 1nat, 671773507090556532914474860991067368841267000903768592439786557261333087165nat);
}

/// Square-and-multiply for `2^2261564242916331941866620800950935700259179388000792266395655937654553313278 mod 2261564242916331941866620800950935700259179388000792266395655937654553313279`, up to the exponent `2684354559`.
proof fn pow_p_full_1()
    requires
        pow_mod(2, 40959nat, 2261564242916331941866620800950935700259179388000792266395655937654553313279nat) == 671773507090556532914474860991067368841267000903768592439786557261333087165nat,
    ensures
        pow_mod(2, 2684354559nat, 2261564242916331941866620800950935700259179388000792266395655937654553313279nat) == 1782951006837323405270762020308467494309382337484059293458086758105184980075nat,
{
    lemma_pow_mod_bit(2, 81919nat, 2261564242916331941866620800950935700259179388000792266395655937654553313279nat, 40959nat, 1nat, 671773507090556532914474860991067368841267000903768592439786557261333087165nat, 199543146405079325432708247878965239027962176845602828840471671879525844675nat, 1604699261550509125425903201388710847540111786092946398759703826657118797900nat, 1nat, 947834280184686308985185601826485994821044184185100531123751715659684282521nat);
    lemma_pow_mod_bit(2, 163839nat, 2261564242916331941866620800950935700259179388000792266395655937654553313279nat, 81919nat, 1nat, 947834280184686308985185601826485994821044184185100531123751715659684282521nat, 397242671972356149606585755526310319677903730078755667853920902750351755973nat, 1159042739818999949695065751384714542219292217539221204689752279403717649974nat, 1nat, 56521236721667957523510701818493384179405047077650142983848621152881986669nat);
    lemma_pow_mod_bit(2, 327679nat, 2261564242916331941866620800950935700259179388000792266395655937654553313279nat, 163839nat, 1nat, 56521236721667957523510701818493384179405047077650142983848621152881986669nat, 1412584325452219572395107644750201739351722464676034551551943963341342875nat, 984885671343679610892913425034559463014991438200093270720150976387864178436nat, 0nat, 1969771342687359221785826850069118926029982876400186541440301952775728356872nat);
    lemma_pow_mod_bit(2, 655359nat, 2261564242916331941866620800950935700259179388000792266395655937654553313279nat, 327679nat, 1nat, 1969771342687359221785826850069118926029982876400186541440301952775728356872nat, 1715626321306276984997838668517880357020140116324352917940686502344814921734nat, 297290898384052190679184371403883098958975233497337706863067638304221718598nat, 0nat, 594581796768104381358368742807766197917950466994675413726135276608443437196nat);
    lemma_pow_mod_bit(2, 1310719nat, 2261564242916331941866620800950935700259179388000792266395655937654553313279nat, 655359nat, 1nat, 594581796768104381358368742807766197917950466994675413726135276608443437196nat, 156319907407143403822106362375142963803357206622709559121880594414441043279nat, 281879710579394488154812804593367255609344774872988280419005272807911940575nat, 0nat, 563759421158788976309625609186734511218689549745976560838010545615823881150nat);
    lemma_pow_mod_bit(2, 2621439nat, 2261564242916331941866620800950935700259179388000792266395655937654553313279nat, 1310719nat, 1nat, 563759421158788976309625609186734511218689549745976560838010545615823881150nat, 140533122568055625729530877487430377703281896346301103723494538092674738481nat, 476473952508202739015531813236080681193425241397727691542567165645935733301nat, 0nat, 952947905016405478031063626472161362386850482795455383085134331291871466602nat);
    lemma_pow_mod_bit(2, 5242879nat, 2261564242916331941866620800950935700259179388000792266395655937654553313279nat, 2621439nat, 1nat, 952947905016405478031063626472161362386850482795455383085134331291871466602nat, 401540532186753482125437754804961525795310298953881664779287554194929452333nat, 1629579942685702873740596108637381239959984269559145770399880073176354996497nat, 1nat, 997595642455073805614571416323826779660789151117499274404104208698156679715nat);
    lemma_pow_mod_bit(2, 10485759nat, 2261564242916331941866620800950935700259179388000792266395655937654553313279nat, 5242879nat, 1nat, 997595642455073805614571416323826779660789151117499274404104208698156679715nat, 440048107836205042712075831126915719202595260404237506124860472293097015584nat, 1047282682990534608557495730871860285543834349885432851883678311979195341289nat, 0nat, 2094565365981069217114991461743720571087668699770865703767356623958390682578nat);
    lemma_pow_mod_bit(2, 20971519nat, 2261564242916331941866620800950935700259179388000792266395655937654553313279nat, 10485759nat, 1nat, 2094565365981069217114991461743720571087668699770865703767356623958390682578nat, 1939898053353560177744976975610971130491692942312913218086691614734049370231nat, 1266997128902421467874498036075500638601829395661601673265927492260353128635nat, 1nat, 272430014888510993882375271200065576944479403322411080136199046866152943991nat);
    lemma_pow_mod_bit(2, 41943039nat, 2261564242916331941866620800950935700259179388000792266395655937654553313279nat, 20971519nat, 1nat, 272430014888510993882375271200065576944479403322411080136199046866152943991nat, 32817158851277465014754227303203058881361026697453354057716576730058060458nat, 278388736157855116542735201513737624699459207963966534858413347451986786299nat, 0nat, 556777472315710233085470403027475249398918415927933069716826694903973572598nat);
    lemma_pow_mod_bit(2, 83886079nat, 2261564242916331941866620800950935700259179388000792266395655937654553313279nat, 41943039nat, 1nat, 556777472315710233085470403027475249398918415927933069716826694903973572598nat, 137073777430491578479562627278790043220549853596704472328624542540187596351nat, 1623367754834670948840252014357060867488249746223826570246721890825476224675nat, 1nat, 985171266753009955813883227763186034717320104446860874097787843996399136071nat);
    lemma_pow_mod_bit(2, 167772159nat, 2261564242916331941866620800950935700259179388000792266395655937654553313279nat, 83886079nat, 1nat, 985171266753009955813883227763186034717320104446860874097787843996399136071nat, 429155363539074532242415527607237688913439038560616199029285234299606625284nat, 1523303829835043955140193413329301609259372490367461403596165415053158970805nat, 1nat, 785043416753755968413766025707667518259565592734130540796674892451764628331nat);
    lemma_pow_mod_bit(2, 335544319nat, 2261564242916331941866620800950935700259179388000792266395655937654553313279nat, 167772159nat, 1nat, 785043416753755968413766025707667518259565592734130540796674892451764628331nat, 272507477122864799624313116904285449769521945823171154384378761159985626337nat, 541128035253588742772276220840472149402269275220219479886808031147173616538nat, 0nat, 1082256070507177485544552441680944298804538550440438959773616062294347233076nat);
    lemma_pow_mod_bit(2, 671088639nat, 2261564242916331941866620800950935700259179388000792266395655937654553313279nat, 335544319nat, 1nat, 1082256070507177485544552441680944298804538550440438959773616062294347233076nat, 517906226108019047366381642190346119292724763152568591491129476022148007754nat, 2020305115138317552695943330702879465570362651656675487474527883587385256410nat, 1nat, 1779045987360303163525265860454823230881545915312558708553399829520217199541nat);
    lemma_pow_mod_bit(2, 1342177279nat, 2261564242916331941866620800950935700259179388000792266395655937654553313279nat, 671088639nat, 1nat, 1779045987360303163525265860454823230881545915312558708553399829520217199541nat, 1399475887123798761508811489826036926263350909625195739864207454403479393749nat, 1549336522198557716577891245952795052848027540037634215162198179070419317710nat, 1nat, 837108801480783491289161690954654405436875692074476163928740420486285322141nat);
    lemma_pow_mod_bit(2, 2684354559nat, 2261564242916331941866620800950935700259179388000792266395655937654553313279nat, 1342177279nat, 1nat, 837108801480783491289161690954654405436875692074476163928740420486285322141nat, 309852416402269115238568976218599988768992915118449380702698148798501892076nat, 2022257624876827673568691410629701597284280862742425779926871347879869146677nat, 1nat, 1782951006837323405270762020308467494309382337484059293458086758105184980075nat);
}

/// Square-and-multiply for `2^2261564242916331941866620800950935700259179388000792266395655937654553313278 mod 2261564242916331941866620800950935700259179388000792266395655937654553313279`, up to the exponent `175921860444159`.
proof fn pow_p_full_2()
    requires
        pow_mod(2, 2684354559nat, 2261564242916331941866620800950935700259179388000792266395655937654553313279nat) == 1782951006837323405270762020308467494309382337484059293458086758105184980075nat,
    ensures
        pow_mod(2, 175921860444159nat, 2261564242916331941866620800950935700259179388000792266395655937654553313279nat) == 1116711608164803619036218206153458780503011139885408165287012746799212927936nat,
{
    lemma_pow_mod_bit(2, 5368709119nat, 2261564242916331941866620800950935700259179388000792266395655937654553313279nat, 2684354559nat, 1nat, 1782951006837323405270762020308467494309382337484059293458086758105184980075nat, 1405626350318906806063746254551790509315044364789682368167049684728526319544nat, 150641455104887393920884836035418387458045360316423401154570900897454580849nat, 0nat, 301282910209774787841769672070836774916090720632846802309141801794909161698nat);
    lemma_pow_mod_bit(2, 10737418239nat, 2261564242916331941866620800950935700259179388000792266395655937654553313279nat, 5368709119nat, 1nat, 301282910209774787841769672070836774916090720632846802309141801794909161698nat, 40136552507312242866789374553645600992406127075330652086152181665520164805nat, 909212936271544291919948790406899717771395611349757589623213836318235297609nat, 0nat, 1818425872543088583839897580813799435542791222699515179246427672636470595218nat);
    lemma_pow_mod_bit(2, 21474836479nat, 2261564242916331941866620800950935700259179388000792266395655937654553313279nat, 10737418239nat, 1nat, 1818425872543088583839897580813799435542791222699515179246427672636470595218nat, 1462117498669891014657375960563202299596835568955307730104851108313282746493nat, 418748878956627144224886061635508864700472846554761836091061786017036886977nat, 0nat, 837497757913254288449772123271017729400945693109523672182123572034073773954nat);
    lemma_pow_mod_bit(2, 42949672959nat, 2261564242916331941866620800950935700259179388000792266395655937654553313279nat, 21474836479nat, 1nat, 837497757913254288449772123271017729400945693109523672182123572034073773954nat, 310140424578545449350656524245391161034987461314759670832454284731864702249nat, 92825486985252829555851655703640228380824202697440111110904169436535929645nat, 0nat, 185650973970505659111703311407280456761648405394880222221808338873071859290nat);
    lemma_pow_mod_bit(2, 85899345919nat, 2261564242916331941866620800950935700259179388000792266395655937654553313279nat, 42949672959nat, 1nat, 185650973970505659111703311407280456761648405394880222221808338873071859290nat, 15240019930520484731403648570388499274636251426164306164099714560861004384nat, 531445798231799569541146935207736174125699277940476041361632801562614888964nat, 0nat, 1062891596463599139082293870415472348251398555880952082723265603125229777928nat);
    lemma_pow_mod_bit(2, 171798691839nat, 2261564242916331941866620800950935700259179388000792266395655937654553313279nat, 85899345919nat, 1nat, 1062891596463599139082293870415472348251398555880952082723265603125229777928nat, 499538560256028019983644867247916490110213635689626451158549387202273712393nat, 212247595275084561589131909814764455969896813259746615060252597814522206537nat, 0nat, 424495190550169123178263819629528911939793626519493230120505195629044413074nat);
    lemma_pow_mod_bit(2, 343597383679nat, 2261564242916331941866620800950935700259179388000792266395655937654553313279nat, 171798691839nat, 1nat, 424495190550169123178263819629528911939793626519493230120505195629044413074nat, 79677668836794953289432675383761222347684213477490524269835168325652859844nat, 1383396949691506666753146611175779639078532076883801192922464389941131061000nat, 1nat, 505229656466681391639672421400623577897884765766810119449272842227708808721nat);
    lemma_pow_mod_bit(2, 687194767359nat, 2261564242916331941866620800950935700259179388000792266395655937654553313279nat, 343597383679nat, 1nat, 505229656466681391639672421400623577897884765766810119449272842227708808721nat, 112867457368481349446985514669967566369758169029489079474287605901163401809nat, 1173104381279032723940774293585912725684456356308378677268924445281233334130nat, 1nat, 84644519641733506014927786220889751109733324615965088142192952907913354981nat);
    lemma_pow_mod_bit(2, 1374389534719nat, 2261564242916331941866620800950935700259179388000792266395655937654553313279nat, 687194767359nat, 1nat, 84644519641733506014927786220889751109733324615965088142192952907913354981nat, 3168026169418381583055120437989753491755763425215604892009360448757814415nat, 1133116064443757423719318966157381846287139922447655878196110396674480393576nat, 1nat, 4667885971182905572017131363827992315100456894519489996564855694407473873nat);
    lemma_pow_mod_bit(2, 2748779069439nat, 2261564242916331941866620800950935700259179388000792266395655937654553313279nat, 1374389534719nat, 1nat, 4667885971182905572017131363827992315100456894519489996564855694407473873nat, 9634552504185609308519539357000465451377882530781801169831949582811736nat, 882173056495344899714220346280864514456665372799347485246068465093491777785nat, 0nat, 1764346112990689799428440692561729028913330745598694970492136930186983555570nat);
    lemma_pow_mod_bit(2, 5497558138879nat, 2261564242916331941866620800950935700259179388000792266395655937654553313279nat, 2748779069439nat, 1nat, 1764346112990689799428440692561729028913330745598694970492136930186983555570nat, 1376444297868446781130037575774564594926876144143526188823510908892821893298nat, 1646537435553797595493186143216307904433168784253735408239764269363573520758nat, 1nat, 1031510628191263249119751485481680108607158180506678550083872601072593728237nat);
    lemma_pow_mod_bit(2, 10995116277759nat, 2261564242916331941866620800950935700259179388000792266395655937654553313279nat, 5497558138879nat, 1nat, 1031510628191263249119751485481680108607158180506678550083872601072593728237nat, 470477095401661971461733037194285040181232402422366671389399539855559488393nat, 1813589371935217862879966701429415342646955134011397524171002796423117857522nat, 1nat, 1365614500954103783893312601907894985034730880022002781946349655191682401765nat);
    lemma_pow_mod_bit(2, 21990232555519nat, 2261564242916331941866620800950935700259179388000792266395655937654553313279nat, 10995116277759nat, 1nat, 1365614500954103783893312601907894985034730880022002781946349655191682401765nat, 824607556940897052156310152380783278080405029917657351091361234528531101042nat, 1555962485920376939661485238337717861660933023752861643176429298359845778507nat, 1nat, 850360728924421937456349675724500023062686659504931019957202659065138243735nat);
    lemma_pow_mod_bit(2, 43980465111039nat, 2261564242916331941866620800950935700259179388000792266395655937654553313279nat, 21990232555519nat, 1nat, 850360728924421937456349675724500023062686659504931019957202659065138243735nat, 319740361814531157434622460503492368928729024771769225674325373083663932079nat, 961084113608185573450410508311476347910309302337033736876038492621601973184nat, 0nat, 1922168227216371146900821016622952695820618604674067473752076985243203946368nat);
    lemma_pow_mod_bit(2, 87960930222079nat, 2261564242916331941866620800950935700259179388000792266395655937654553313279nat, 43980465111039nat, 1nat, 1922168227216371146900821016622952695820618604674067473752076985243203946368nat, 1633705832276379871654688444093241372115170125245781125936407942859404780258nat, 395759648563793787884703033942666581439102844281859958588440559284191945442nat, 0nat, 791519297127587575769406067885333162878205688563719917176881118568383890884nat);
    lemma_pow_mod_bit(2, 175921860444159nat, 2261564242916331941866620800950935700259179388000792266395655937654553313279nat, 87960930222079nat, 1nat, 791519297127587575769406067885333162878205688563719917176881118568383890884nat, 277021888583391503971687677244684214427947059091729259957180886292539166672nat, 558355804082401809518109103076729390251505569942704082643506373399606463968nat, 0nat, 1116711608164803619036218206153458780503011139885408165287012746799212927936nat);
}

/// Square-and-multiply for `2^2261564242916331941866620800950935700259179388000792266395655937654553313278 mod 2261564242916331941866620800950935700259179388000792266395655937654553313279`, up to the exponent `11529215046068469759`.
proof fn pow_p_full_3()
    requires
        pow_mod(2, 175921860444159nat, 2261564242916331941866620800950935700259179388000792266395655937654553313279nat) == 1116711608164803619036218206153458780503011139885408165287012746799212927936nat,
    ensures
        pow_mod(2, 11529215046068469759nat, 2261564242916331941866620800950935700259179388000792266395655937654553313279nat) == 2221400884436885652746352243895527817349036093121132660431726876931663610456nat,
{
    lemma_pow_mod_bit(2, 351843720888319nat, 2261564242916331941866620800950935700259179388000792266395655937654553313279nat, 175921860444159nat, 1nat, 1116711608164803619036218206153458780503011139885408165287012746799212927936nat, 551408088324713195800486095226068808915363193227827528406949550386666493606nat, 1326927027505485779756717595532791257240978033288289804785900896253360826022nat, 1nat, 392289812094639617646814390114646814222776678575787343176145854852168338765nat);
    lemma_pow_mod_bit(2, 703687441776639nat, 2261564242916331941866620800950935700259179388000792266395655937654553313279nat, 351843720888319nat, 1nat, 392289812094639617646814390114646814222776678575787343176145854852168338765nat, 68046396274289241792297936612967609594729015230319851758828425972460172414nat, 637362329947446912746971775052361963435767723051781388030432835048506039719nat, 0nat, 1274724659894893825493943550104723926871535446103562776060865670097012079438nat);
    lemma_pow_mod_bit(2, 1407374883553279nat, 2261564242916331941866620800950935700259179388000792266395655937654553313279nat, 703687441776639nat, 1nat, 1274724659894893825493943550104723926871535446103562776060865670097012079438nat, 718495158222338338215174215395440774554543413003445512409860263360134148122nat, 1723753000404159250051046231774307952176536289987293726899497907719566883806nat, 1nat, 1185941757891986558235471662597680204093893191973795187403339877784580454333nat);
    lemma_pow_mod_bit(2, 2814749767106559nat, 2261564242916331941866620800950935700259179388000792266395655937654553313279nat, 1407374883553279nat, 1nat, 1185941757891986558235471662597680204093893191973795187403339877784580454333nat, 621896042757679953397779392183065776757779823363616052709316989052544161790nat, 982208334860445557690864093346286262448337618974929487790164049264367065479nat, 0nat, 1964416669720891115381728186692572524896675237949858975580328098528734130958nat);
    lemma_pow_mod_bit(2, 5629499534213119nat, 2261564242916331941866620800950935700259179388000792266395655937654553313279nat, 2814749767106559nat, 1nat, 1964416669720891115381728186692572524896675237949858975580328098528734130958nat, 1706311401218983797936824716280276023760530282684354983349626141745693896509nat, 566751320008755432712017987917269446463878779347843034591236084017812554753nat, 0nat, 1133502640017510865424035975834538892927757558695686069182472168035625109506nat);
    lemma_pow_mod_bit(2, 11258999068426239nat, 2261564242916331941866620800950935700259179388000792266395655937654553313279nat, 5629499534213119nat, 1nat, 1133502640017510865424035975834538892927757558695686069182472168035625109506nat, 568114851899964307504824639344675606156232307166448121352086717437708617145nat, 10317122250814020974653867805334364341791602053480924005125932285435995581nat, 0nat, 20634244501628041949307735610668728683583204106961848010251864570871991162nat);
    lemma_pow_mod_bit(2, 22517998136852479nat, 2261564242916331941866620800950935700259179388000792266395655937654553313279nat, 11258999068426239nat, 1nat, 20634244501628041949307735610668728683583204106961848010251864570871991162nat, 188264404819173115325051580461242577016752162338692148125289948298094711nat, 2214145774912654683273725063495794240460148894304015379232360522018610142875nat, 1nat, 2166727306908977424680829326040652780661118400607238492069065106382666972471nat);
    lemma_pow_mod_bit(2, 45035996273704959nat, 2261564242916331941866620800950935700259179388000792266395655937654553313279nat, 22517998136852479nat, 1nat, 2166727306908977424680829326040652780661118400607238492069065106382666972471nat, 2075867283987083198063754359345824069800505982224410740898570379722912897673nat, 1310101342575428450789744876730959574380924370583078005053675946136232746074nat, 1nat, 358638442234524959712868952510983448502669353165363743711695954617912178869nat);
    lemma_pow_mod_bit(2, 90071992547409919nat, 2261564242916331941866620800950935700259179388000792266395655937654553313279nat, 45035996273704959nat, 1nat, 358638442234524959712868952510983448502669353165363743711695954617912178869nat, 56872818294361905794128669217946971544950317234390216388895457835290367347nat, 957415900171922162914214518727150247182902080052376001604212707623167018348nat, 0nat, 1914831800343844325828429037454300494365804160104752003208425415246334036696nat);
    lemma_pow_mod_bit(2, 180143985094819839nat, 2261564242916331941866620800950935700259179388000792266395655937654553313279nat, 90071992547409919nat, 1nat, 1914831800343844325828429037454300494365804160104752003208425415246334036696nat, 1621258752694073112996048111681341494947827840938484437541139196669979448749nat, 1783792993816950386068266802219563871985008073407810042657990810450352958445nat, 1nat, 1306021744717568830269912803488192043710836758814827818920325683246152603611nat);
    lemma_pow_mod_bit(2, 360287970189639679nat, 2261564242916331941866620800950935700259179388000792266395655937654553313279nat, 180143985094819839nat, 1nat, 1306021744717568830269912803488192043710836758814827818920325683246152603611nat, 754209305801367746003814251598600409725701622902274806875198722352293516484nat, 211935483979412311207549681449311529861005922276296262891503483161887648285nat, 0nat, 423870967958824622415099362898623059722011844552592525783006966323775296570nat);
    lemma_pow_mod_bit(2, 720575940379279359nat, 2261564242916331941866620800950935700259179388000792266395655937654553313279nat, 360287970189639679nat, 1nat, 423870967958824622415099362898623059722011844552592525783006966323775296570nat, 79443508200619271001973363597640510393600433959703301533959637100558570859nat, 59345722247258359979243902586674260269248243291935199860650568631906628239nat, 0nat, 118691444494516719958487805173348520538496486583870399721301137263813256478nat);
    lemma_pow_mod_bit(2, 1441151880758558719nat, 2261564242916331941866620800950935700259179388000792266395655937654553313279nat, 720575940379279359nat, 1nat, 118691444494516719958487805173348520538496486583870399721301137263813256478nat, 6229165959057005488817639548362675477916392154371431826995307767623399851nat, 1545103879887152440667479717442376676371184832776944308448178502564324043055nat, 1nat, 828643516857972939468338633933817652483190277553096350500701067474094772831nat);
    lemma_pow_mod_bit(2, 2882303761517117439nat, 2261564242916331941866620800950935700259179388000792266395655937654553313279nat, 1441151880758558719nat, 1nat, 828643516857972939468338633933817652483190277553096350500701067474094772831nat, 303617321586806125868139638608362008968988436235043185180789197078635786256nat, 1728449693622224085370358383373826156082768932314217799253911708513445261137nat, 1nat, 1195335144328116228874095965796716611906358476627643332112167479372337208995nat);
    lemma_pow_mod_bit(2, 5764607523034234879nat, 2261564242916331941866620800950935700259179388000792266395655937654553313279nat, 2882303761517117439nat, 1nat, 1195335144328116228874095965796716611906358476627643332112167479372337208995nat, 631786654631317859067846717434579721757851008024699121510820448060201973128nat, 261267810367496044638811887538926176127218922698619297689353507320585343313nat, 0nat, 522535620734992089277623775077852352254437845397238595378707014641170686626nat);
    lemma_pow_mod_bit(2, 11529215046068469759nat, 2261564242916331941866620800950935700259179388000792266395655937654553313279nat, 5764607523034234879nat, 1nat, 522535620734992089277623775077852352254437845397238595378707014641170686626nat, 120732132988098767793078107304359361950031769932223242930664837448968876712nat, 1110700442218442826373176121947763908674518046560566330215863438465831805228nat, 0nat, 2221400884436885652746352243895527817349036093121132660431726876931663610456nat);
}

/// Square-and-multiply for `2^2261564242916331941866620800950935700259179388000792266395655937654553313278 mod 2261564242916331941866620800950935700259179388000792266395655937654553313279`, up to the exponent `755578637259143234191359`.
proof fn pow_p_full_4()
    requires
        pow_mod(2, 11529215046068469759nat, 2261564242916331941866620800950935700259179388000792266395655937654553313279nat) == 2221400884436885652746352243895527817349036093121132660431726876931663610456nat,
    ensures
        pow_mod(2, 755578637259143234191359nat, 2261564242916331941866620800950935700259179388000792266395655937654553313279nat) == 1359178130550252104338453855776115100550562986967850314309827589598647946713nat,
{
    lemma_pow_mod_bit(2, 23058430092136939519nat, 2261564242916331941866620800950935700259179388000792266395655937654553313279nat, 11529215046068469759nat, 1nat, 2221400884436885652746352243895527817349036093121132660431726876931663610456nat, 2181950791286691470862516870728551671354719914871145421302103882833786719575nat, 2163940583176222945492791679425029911200531130412653174187938241064615791511nat, 1nat, 2066316923436113949118962557899124122141882872824514081980220544474678269743nat);
    lemma_pow_mod_bit(2, 46116860184273879039nat, 2261564242916331941866620800950935700259179388000792266395655937654553313279nat, 23058430092136939519nat, 1nat, 2066316923436113949118962557899124122141882872824514081980220544474678269743nat, 1887925864344524962053633693727721555030892615703647657804464821745781210840nat, 734742196002621138144895993469807326771621067801366171247882474661798541689nat, 0nat, 1469484392005242276289791986939614653543242135602732342495764949323597083378nat);
    lemma_pow_mod_bit(2, 92233720368547758079nat, 2261564242916331941866620800950935700259179388000792266395655937654553313279nat, 46116860184273879039nat, 1nat, 1469484392005242276289791986939614653543242135602732342495764949323597083378nat, 954818942292104676304513416242792355510927766229371487876236920356266764923nat, 1819780577474954520927170813696803645648204893954765206450957892208016578367nat, 1nat, 1377996912033577099987720826442671591037230399908738146506259846761479843455nat);
    lemma_pow_mod_bit(2, 184467440737095516159nat, 2261564242916331941866620800950935700259179388000792266395655937654553313279nat, 92233720368547758079nat, 1nat, 1377996912033577099987720826442671591037230399908738146506259846761479843455nat, 839629250206678375181533346487620275300135974198368234420440406532192941861nat, 1368845572493602436246462774830676911423423572654115478299284418435540064806nat, 1nat, 476126902070872930626304748710418122587667757307438690202912899216526816333nat);
    lemma_pow_mod_bit(2, 368934881474191032319nat, 2261564242916331941866620800950935700259179388000792266395655937654553313279nat, 184467440737095516159nat, 1nat, 476126902070872930626304748710418122587667757307438690202912899216526816333nat, 100238950799503518749819378651823279381311833034837772076943627298624964597nat, 320695824998201336914651938806293915030880812592890060385675598514290583326nat, 0nat, 641391649996402673829303877612587830061761625185780120771351197028581166652nat);
    lemma_pow_mod_bit(2, 737869762948382064639nat, 2261564242916331941866620800950935700259179388000792266395655937654553313279nat, 368934881474191032319nat, 1nat, 641391649996402673829303877612587830061761625185780120771351197028581166652nat, 181902083911010660684044192609030001438121259180291000449777024934427479404nat, 1851857185987578053607285215372002505057289223434171404431522068356664683388nat, 1nat, 1442150129058824165347949629793069309855399058867550542467388199058776053497nat);
    lemma_pow_mod_bit(2, 1475739525896764129279nat, 2261564242916331941866620800950935700259179388000792266395655937654553313279nat, 737869762948382064639nat, 1nat, 1442150129058824165347949629793069309855399058867550542467388199058776053497nat, 919627643237958045222190064233214679900009666561211109344736489056286232215nat, 1362077568058873157749701027519291076806480839005107659848300596362768846024nat, 1nat, 462590893201414373632781254087646453353782290009423053300945255070984378769nat);
    lemma_pow_mod_bit(2, 2951479051793528258559nat, 2261564242916331941866620800950935700259179388000792266395655937654553313279nat, 1475739525896764129279nat, 1nat, 462590893201414373632781254087646453353782290009423053300945255070984378769nat, 94620497800645087522640527767022760909647600140148237524498678827916605158nat, 217486048766401642426896371236429157233837366468171098426938986350336662279nat, 0nat, 434972097532803284853792742472858314467674732936342196853877972700673324558nat);
    lemma_pow_mod_bit(2, 5902958103587056517119nat, 2261564242916331941866620800950935700259179388000792266395655937654553313279nat, 2951479051793528258559nat, 1nat, 434972097532803284853792742472858314467674732936342196853877972700673324558nat, 83659231094009713212967474795115790988773578740554120549443790923747436279nat, 2049362929656873263047026679013026808298707570755899087080209616759028846523nat, 1nat, 1837161616397414584227432557075117916338235753511005907764763295863504379767nat);
    lemma_pow_mod_bit(2, 11805916207174113034239nat, 2261564242916331941866620800950935700259179388000792266395655937654553313279nat, 5902958103587056517119nat, 1nat, 1837161616397414584227432557075117916338235753511005907764763295863504379767nat, 1492401914000736819139474960343251559610615271681171919220837501600376340500nat, 1943814049685724898340014209107493552930995734793498195782971239195283474789nat, 1nat, 1626063856455117854813407617264051405602812081586204125170286540736013636299nat);
    lemma_pow_mod_bit(2, 23611832414348226068479nat, 2261564242916331941866620800950935700259179388000792266395655937654553313279nat, 11805916207174113034239nat, 1nat, 1626063856455117854813407617264051405602812081586204125170286540736013636299nat, 1169139313000497302290409616494775079320025236102238910631014766294830101507nat, 532314352113202863642184903078872559832008959301239502254209169285909405948nat, 0nat, 1064628704226405727284369806157745119664017918602479004508418338571818811896nat);
    lemma_pow_mod_bit(2, 47223664828696452136959nat, 2261564242916331941866620800950935700259179388000792266395655937654553313279nat, 23611832414348226068479nat, 1nat, 1064628704226405727284369806157745119664017918602479004508418338571818811896nat, 501172708850936601682084065898328131918950962220163140536842558601966518884nat, 2154126618311317814020778504771142739009700929770411739804529925605109654180nat, 1nat, 2046688993706303686174936208591349777760222471540031213213403913555665995081nat);
    lemma_pow_mod_bit(2, 94447329657392904273919nat, 2261564242916331941866620800950935700259179388000792266395655937654553313279nat, 47223664828696452136959nat, 1nat, 2046688993706303686174936208591349777760222471540031213213403913555665995081nat, 1852229424867810155377574555092369084250577770426450220196206604654035881888nat, 451145328222312708127084635285040396772441961795930725872984930214810205809nat, 0nat, 902290656444625416254169270570080793544883923591861451745969860429620411618nat);
    lemma_pow_mod_bit(2, 188894659314785808547839nat, 2261564242916331941866620800950935700259179388000792266395655937654553313279nat, 94447329657392904273919nat, 1nat, 902290656444625416254169270570080793544883923591861451745969860429620411618nat, 359984657193482285895592631590495284652178746057348693101357475279930083499nat, 1110056257737047486152593760845535935043487127198273403859707310082173894703nat, 0nat, 2220112515474094972305187521691071870086974254396546807719414620164347789406nat);
    lemma_pow_mod_bit(2, 377789318629571617095679nat, 2261564242916331941866620800950935700259179388000792266395655937654553313279nat, 188894659314785808547839nat, 1nat, 2220112515474094972305187521691071870086974254396546807719414620164347789406nat, 2179420547880965711283843577604956740615572921563200772667849413557958652297nat, 1493605245274233214789632570897674210237001055299191050099550272952051880973nat, 1nat, 725646247632134487712644340844412720214822722597589833803444608249550448667nat);
    lemma_pow_mod_bit(2, 755578637259143234191359nat, 2261564242916331941866620800950935700259179388000792266395655937654553313279nat, 377789318629571617095679nat, 1nat, 725646247632134487712644340844412720214822722597589833803444608249550448667nat, 232831093943890928469568003816206598188221488992936371423047704929492046867nat, 1810371186733292023102537328363525400404871187484321290352741763626600629996nat, 1nat, 1359178130550252104338453855776115100550562986967850314309827589598647946713nat);
}

/// Square-and-multiply for `2^2261564242916331941866620800950935700259179388000792266395655937654553313278 mod 2261564242916331941866620800950935700259179388000792266395655937654553313279`, up to the exponent `49517601571415210995964968959`.
proof fn pow_p_full_5()
    requires
        pow_mod(2, 755578637259143234191359nat, 2261564242916331941866620800950935700259179388000792266395655937654553313279nat) == 1359178130550252104338453855776115100550562986967850314309827589598647946713nat,
    ensures
        pow_mod(2, 49517601571415210995964968959nat, 2261564242916331941866620800950935700259179388000792266395655937654553313279nat) == 1312258836627723442436114348862678292262827742092686042998364149166462158264nat,
{
    lemma_pow_mod_bit(2, 1511157274518286468382719nat, 2261564242916331941866620800950935700259179388000792266395655937654553313279nat, 755578637259143234191359nat, 1nat, 1359178130550252104338453855776115100550562986967850314309827589598647946713nat, 816852847029392409880375919186919873033115812496930169936359984368025169848nat, 1058817328398203830940521028028620226271056129980765777399784611615758692777nat, 0nat, 2117634656796407661881042056057240452542112259961531554799569223231517385554nat);
    lemma_pow_mod_bit(2, 3022314549036572936765439nat, 2261564242916331941866620800950935700259179388000792266395655937654553313279nat, 1511157274518286468382719nat, 1nat, 2117634656796407661881042056057240452542112259961531554799569223231517385554nat, 1982864981046280952075318453326097442132641613214872286227032630719462644113nat, 1719537611457568032364190034525568111730617949738969937508208762125313810389nat, 1nat, 1177510979998804122861759268100200523202056511477147608620761586596074307499nat);
    lemma_pow_mod_bit(2, 6044629098073145873530879nat, 2261564242916331941866620800950935700259179388000792266395655937654553313279nat, 3022314549036572936765439nat, 1nat, 1177510979998804122861759268100200523202056511477147608620761586596074307499nat, 613085439584852753297575173811439611990293636955186259341887565177341847506nat, 1020914232063159946899498436347384740851485910231465876149734263340944802827nat, 0nat, 2041828464126319893798996872694769481702971820462931752299468526681889605654nat);
    lemma_pow_mod_bit(2, 12089258196146291747061759nat, 2261564242916331941866620800950935700259179388000792266395655937654553313279nat, 6044629098073145873530879nat, 1nat, 2041828464126319893798996872694769481702971820462931752299468526681889605654nat, 1843442427061172656515752301796352577950340824636964853719883459744874876590nat, 1504340211431359361716979007596442572121699569252288358089440965696895529106nat, 1nat, 747116179946386781567337214241949443984219750503784449783225993739237744933nat);
    lemma_pow_mod_bit(2, 24178516392292583494123519nat, 2261564242916331941866620800950935700259179388000792266395655937654553313279nat, 12089258196146291747061759nat, 1nat, 747116179946386781567337214241949443984219750503784449783225993739237744933nat, 246812615686695806312483781735174794374327693317916975703644266289256511501nat, 1076394999610171541799603131021230561604067668810530805248482830122447652710nat, 0nat, 2152789999220343083599206262042461123208135337621061610496965660244895305420nat);
    lemma_pow_mod_bit(2, 48357032784585166988247039nat, 2261564242916331941866620800950935700259179388000792266395655937654553313279nat, 24178516392292583494123519nat, 1nat, 2152789999220343083599206262042461123208135337621061610496965660244895305420nat, 2049247460141498766221753532067382698492573832200392207947442602442683376242nat, 264636156455268803396441059990291607122162571585530920988633652019829658882nat, 0nat, 529272312910537606792882119980583214244325143171061841977267304039659317764nat);
    lemma_pow_mod_bit(2, 96714065569170333976494079nat, 2261564242916331941866620800950935700259179388000792266395655937654553313279nat, 48357032784585166988247039nat, 1nat, 529272312910537606792882119980583214244325143171061841977267304039659317764nat, 123865232699486749419620702060876348794328559023232424397973367983760266455nat, 411730015300688441846953990522425327621423379850561204784362389153796203751nat, 0nat, 823460030601376883693907981044850655242846759701122409568724778307592407502nat);
    lemma_pow_mod_bit(2, 193428131138340667952988159nat, 2261564242916331941866620800950935700259179388000792266395655937654553313279nat, 96714065569170333976494079nat, 1nat, 823460030601376883693907981044850655242846759701122409568724778307592407502nat, 299830714127145318222649624894307787843884114792844754828939626677103550326nat, 54470949238238665959736018827110733263372658922908190718406850019005301050nat, 0nat, 108941898476477331919472037654221466526745317845816381436813700038010602100nat);
    lemma_pow_mod_bit(2, 386856262276681335905976319nat, 2261564242916331941866620800950935700259179388000792266395655937654553313279nat, 193428131138340667952988159nat, 1nat, 108941898476477331919472037654221466526745317845816381436813700038010602100nat, 5247844398333181006077593298498322656341070389343796605099359241917803212nat, 1625772323499510830243028612454678575498221688870089648879688433412815957852nat, 1nat, 989980404082689718619436423958421450737263989739387031363720929171078602425nat);
    lemma_pow_mod_bit(2, 773712524553362671811952639nat, 2261564242916331941866620800950935700259179388000792266395655937654553313279nat, 386856262276681335905976319nat, 1nat, 989980404082689718619436423958421450737263989739387031363720929171078602425nat, 433355454543231221161913998655670063898785579015360530527035412701703731489nat, 1503433770555911907603629093300274639529392319972668869411155330328501738194nat, 1nat, 745303298195491873340637385649613578799605251944545472426654723002450163109nat);
    lemma_pow_mod_bit(2, 1547425049106725343623905279nat, 2261564242916331941866620800950935700259179388000792266395655937654553313279nat, 773712524553362671811952639nat, 1nat, 745303298195491873340637385649613578799605251944545472426654723002450163109nat, 245616284410642991169162198027498282491837801727208078181478600692978093968nat, 222121782345253312179345991943915021961673453666625508947906060740100344809nat, 0nat, 444243564690506624358691983887830043923346907333251017895812121480200689618nat);
    lemma_pow_mod_bit(2, 3094850098213450687247810559nat, 2261564242916331941866620800950935700259179388000792266395655937654553313279nat, 1547425049106725343623905279nat, 1nat, 444243564690506624358691983887830043923346907333251017895812121480200689618nat, 87263647445379920585178457525814778565375760765078675758226500216076661990nat, 152890129062670725205062681392833048653787510889944026460098707781711420714nat, 0nat, 305780258125341450410125362785666097307575021779888052920197415563422841428nat);
    lemma_pow_mod_bit(2, 6189700196426901374495621119nat, 2261564242916331941866620800950935700259179388000792266395655937654553313279nat, 3094850098213450687247810559nat, 1nat, 305780258125341450410125362785666097307575021779888052920197415563422841428nat, 41343758662645073535482912011571600703398857543736293429538640818608748695nat, 1471194752417003156206507973640168526631804625744586649949893970312715658279nat, 1nat, 680825261917674370546395146329401353004429863488381033504132002970878003279nat);
    lemma_pow_mod_bit(2, 12379400392853802748991242239nat, 2261564242916331941866620800950935700259179388000792266395655937654553313279nat, 6189700196426901374495621119nat, 1nat, 680825261917674370546395146329401353004429863488381033504132002970878003279nat, 204956829644400354741621820295452251219209897611184542838907151606398107235nat, 499614435507602831615658897122678853485148579405430679707113786234343278276nat, 0nat, 999228871015205663231317794245357706970297158810861359414227572468686556552nat);
    lemma_pow_mod_bit(2, 24758800785707605497982484479nat, 2261564242916331941866620800950935700259179388000792266395655937654553313279nat, 12379400392853802748991242239nat, 1nat, 999228871015205663231317794245357706970297158810861359414227572468686556552nat, 441490149925076057163479196711249762820635126330211061314131893690575685130nat, 555800686146677856170140280349975059330126372846755064518365051814142287434nat, 0nat, 1111601372293355712340280560699950118660252745693510129036730103628284574868nat);
    lemma_pow_mod_bit(2, 49517601571415210995964968959nat, 2261564242916331941866620800950935700259179388000792266395655937654553313279nat, 24758800785707605497982484479nat, 1nat, 1111601372293355712340280560699950118660252745693510129036730103628284574868nat, 546372987083960354061404752857721333860332675698902562390414551958439587148nat, 656129418313861721218057174431339146131413871046343021499182074583231079132nat, 0nat, 1312258836627723442436114348862678292262827742092686042998364149166462158264nat);
}

/// Square-and-multiply for `2^2261564242916331941866620800950935700259179388000792266395655937654553313278 mod 2261564242916331941866620800950935700259179388000792266395655937654553313279`, up to the exponent `3245185536584267267831560205762559`.
proof fn pow_p_full_6()
    requires
        pow_mod(2, 49517601571415210995964968959nat, 2261564242916331941866620800950935700259179388000792266395655937654553313279nat) == 1312258836627723442436114348862678292262827742092686042998364149166462158264nat,
    ensures
        pow_mod(2, 3245185536584267267831560205762559nat, 2261564242916331941866620800950935700259179388000792266395655937654553313279nat) == 2130262649014567722379305297112596450367468462201031635469010417917238069145nat,
{
    lemma_pow_mod_bit(2, 99035203142830421991929937919nat, 2261564242916331941866620800950935700259179388000792266395655937654553313279nat, 49517601571415210995964968959nat, 1nat, 1312258836627723442436114348862678292262827742092686042998364149166462158264nat, 761430173695602397368451072656081966275873569886452969568738471975287620878nat, 882193931030361348417892905294073996743154329609884552946952065220868454734nat, 0nat, 1764387862060722696835785810588147993486308659219769105893904130441736909468nat);
    lemma_pow_mod_bit(2, 198070406285660843983859875839nat, 2261564242916331941866620800950935700259179388000792266395655937654553313279nat, 99035203142830421991929937919nat, 1nat, 1764387862060722696835785810588147993486308659219769105893904130441736909468nat, 1376509439224617991219191012113360742772328611725870361750639509041741519106nat, 1025149360165835898470996310110331181736249145880919478812480901209046034450nat, 0nat, 2050298720331671796941992620220662363472498291761838957624961802418092068900nat);
    lemma_pow_mod_bit(2, 396140812571321687967719751679nat, 2261564242916331941866620800950935700259179388000792266395655937654553313279nat, 198070406285660843983859875839nat, 1nat, 2050298720331671796941992620220662363472498291761838957624961802418092068900nat, 1858768706553701242687617998764021099614772905042398066069449388052304894875nat, 1866643804428427272376973614165748680129344972032243927815505308941310664875nat, 1nat, 1471723365940522602887326427380561659999510556063695589235354680228068016471nat);
    lemma_pow_mod_bit(2, 792281625142643375935439503359nat, 2261564242916331941866620800950935700259179388000792266395655937654553313279nat, 396140812571321687967719751679nat, 1nat, 1471723365940522602887326427380561659999510556063695589235354680228068016471nat, 957730770920856339194386786378501535466386889560782459312539928507619937531nat, 1836346437967581030996424421566617998705048427827910892195201240621274519692nat, 1nat, 1411128633018830120126228042182300297150917467655029517994746543587995726105nat);
    lemma_pow_mod_bit(2, 1584563250285286751870879006719nat, 2261564242916331941866620800950935700259179388000792266395655937654553313279nat, 792281625142643375935439503359nat, 1nat, 1411128633018830120126228042182300297150917467655029517994746543587995726105nat, 880489698739573234244064166384477026558267431089280763052594262397363731108nat, 1433109369445061077048676081522242689679802622913438921174843880099136687893nat, 1nat, 604654495973790212230731362093549679100425857826085575954031822543720062507nat);
    lemma_pow_mod_bit(2, 3169126500570573503741758013439nat, 2261564242916331941866620800950935700259179388000792266395655937654553313279nat, 1584563250285286751870879006719nat, 1nat, 604654495973790212230731362093549679100425857826085575954031822543720062507nat, 161661142568234422623565643381027040461406523301280874314174097060474538409nat, 2008948990744234806644020259053129303588580581179475152418574099986891891938nat, 1nat, 1756333738572137671421419717155322906917981774358158038441492262319230470597nat);
    lemma_pow_mod_bit(2, 6338253001141147007483516026879nat, 2261564242916331941866620800950935700259179388000792266395655937654553313279nat, 3169126500570573503741758013439nat, 1nat, 1756333738572137671421419717155322906917981774358158038441492262319230470597nat, 1363971070425569531493672121344929298967469070643535104079840911500448185989nat, 401285528669776648615402965021864781054243299457983405034292060016906088478nat, 0nat, 802571057339553297230805930043729562108486598915966810068584120033812176956nat);
    lemma_pow_mod_bit(2, 12676506002282294014967032053759nat, 2261564242916331941866620800950935700259179388000792266395655937654553313279nat, 6338253001141147007483516026879nat, 1nat, 802571057339553297230805930043729562108486598915966810068584120033812176956nat, 284811852723901684493868900922026565945510751690736670258906354684344321448nat, 96133621789804708254891735863523831815291057561851406003186181046434517944nat, 0nat, 192267243579609416509783471727047663630582115123702812006372362092869035888nat);
    lemma_pow_mod_bit(2, 25353012004564588029934064107519nat, 2261564242916331941866620800950935700259179388000792266395655937654553313279nat, 12676506002282294014967032053759nat, 1nat, 192267243579609416509783471727047663630582115123702812006372362092869035888nat, 16345630273156235755986762755315969020432841283957827033192987162525904341nat, 1286361892725792292476920041536400611678040363963219218493946668699272904405nat, 1nat, 311159542535252643087219282121865523096901339925646170592237399743992495531nat);
    lemma_pow_mod_bit(2, 50706024009129176059868128215039nat, 2261564242916331941866620800950935700259179388000792266395655937654553313279nat, 25353012004564588029934064107519nat, 1nat, 311159542535252643087219282121865523096901339925646170592237399743992495531nat, 42811191950000081486937662950816147549051273370277990549419549530846797016nat, 2048984137683129387268636850101087370054349199907501082636256151077484596497nat, 1nat, 1836404032449926832670652899251239039849519011814209898876856364500415879715nat);
    lemma_pow_mod_bit(2, 101412048018258352119736256430079nat, 2261564242916331941866620800950935700259179388000792266395655937654553313279nat, 50706024009129176059868128215039nat, 1nat, 1836404032449926832670652899251239039849519011814209898876856364500415879715nat, 1491171334602284536276831896762468422261513836211877997364996318048316054445nat, 1910210071222189348400497484699553817847206979222038300188134982394043006070nat, 1nat, 1558855899528046754934374168448171935435234570443284333980614027133532698861nat);
    lemma_pow_mod_bit(2, 202824096036516704239472512860159nat, 2261564242916331941866620800950935700259179388000792266395655937654553313279nat, 101412048018258352119736256430079nat, 1nat, 1558855899528046754934374168448171935435234570443284333980614027133532698861nat, 1074491570648385256695173817556505030404781315992320934914360313805113319929nat, 676176143990908413080020330872048834993080702608822956705672234520019660130nat, 0nat, 1352352287981816826160040661744097669986161405217645913411344469040039320260nat);
    lemma_pow_mod_bit(2, 405648192073033408478945025720319nat, 2261564242916331941866620800950935700259179388000792266395655937654553313279nat, 202824096036516704239472512860159nat, 1nat, 1352352287981816826160040661744097669986161405217645913411344469040039320260nat, 808668918664591120618754414516888131759176893310865145736197515175870269575nat, 369032775968308601406608108620902194553283547043000134272444929295689281175nat, 0nat, 738065551936617202813216217241804389106567094086000268544889858591378562350nat);
    lemma_pow_mod_bit(2, 811296384146066816957890051440639nat, 2261564242916331941866620800950935700259179388000792266395655937654553313279nat, 405648192073033408478945025720319nat, 1nat, 738065551936617202813216217241804389106567094086000268544889858591378562350nat, 240869018274293801983137266109311623548948281055589133381858936783051272561nat, 509999221644615640557661703327291219305412660209186102292635884012987884981nat, 0nat, 1019998443289231281115323406654582438610825320418372204585271768025975769962nat);
    lemma_pow_mod_bit(2, 1622592768292133633915780102881279nat, 2261564242916331941866620800950935700259179388000792266395655937654553313279nat, 811296384146066816957890051440639nat, 1nat, 1019998443289231281115323406654582438610825320418372204585271768025975769962nat, 460034167754104046198300362117756759131352697131571426408853506572096975833nat, 104392811588569451603549283856188329011407410516288285741358513732600495037nat, 0nat, 208785623177138903207098567712376658022814821032576571482717027465200990074nat);
    lemma_pow_mod_bit(2, 3245185536584267267831560205762559nat, 2261564242916331941866620800950935700259179388000792266395655937654553313279nat, 1622592768292133633915780102881279nat, 1nat, 208785623177138903207098567712376658022814821032576571482717027465200990074nat, 19274905226328755432852669510191053655383835705499666311199325933873954216nat, 2195913445965449832122963049031766075313323925100911950932333177785895691212nat, 1nat, 2130262649014567722379305297112596450367468462201031635469010417917238069145nat);
}

/// Square-and-multiply for `2^2261564242916331941866620800950935700259179388000792266395655937654553313278 mod 2261564242916331941866620800950935700259179388000792266395655937654553313279`, up to the exponent `212676479325586539664609129644855132159`.
proof fn pow_p_full_7()
    requires
        pow_mod(2, 3245185536584267267831560205762559nat, 2261564242916331941866620800950935700259179388000792266395655937654553313279nat) == 2130262649014567722379305297112596450367468462201031635469010417917238069145nat,
    ensures
        pow_mod(2, 212676479325586539664609129644855132159nat, 2261564242916331941866620800950935700259179388000792266395655937654553313279nat) == 498040780175489875913669328987814594213700985097710440828776403209992237705nat,
{
    lemma_pow_mod_bit(2, 6490371073168534535663120411525119nat, 2261564242916331941866620800950935700259179388000792266395655937654553313279nat, 3245185536584267267831560205762559nat, 1nat, 2130262649014567722379305297112596450367468462201031635469010417917238069145nat, 2006584145465042334268887436460803284943793741300201060052018318493191643845nat, 1688237454131337825670352497090182502082753922419803390283615371586523913270nat, 1nat, 1114910665346343709474084193229429303906328456838814514171574805518494513261nat);
    lemma_pow_mod_bit(2, 12980742146337069071326240823050239nat, 2261564242916331941866620800950935700259179388000792266395655937654553313279nat, 6490371073168534535663120411525119nat, 1nat, 1114910665346343709474084193229429303906328456838814514171574805518494513261nat, 549630989080425328232817180906603325870865793159862845285839394955442018956nat, 1961714476709342316265249007028890074574624129840734245531344640134380337397nat, 1nat, 1661864710502352690663877213106844448890068871680676224667033342614207361515nat);
    lemma_pow_mod_bit(2, 25961484292674138142652481646100479nat, 2261564242916331941866620800950935700259179388000792266395655937654553313279nat, 12980742146337069071326240823050239nat, 1nat, 1661864710502352690663877213106844448890068871680676224667033342614207361515nat, 1221187646852640354756739718743780049773473419932596127376757443704637428527nat, 427246304399744988644618784286629856139056276895432438438485300475500585192nat, 0nat, 854492608799489977289237568573259712278112553790864876876970600951001170384nat);
    lemma_pow_mod_bit(2, 51922968585348276285304963292200959nat, 2261564242916331941866620800950935700259179388000792266395655937654553313279nat, 25961484292674138142652481646100479nat, 1nat, 854492608799489977289237568573259712278112553790864876876970600951001170384nat, 322855130372686422944717839854073955159479114381704788608277200481653739242nat, 1583099790279603282020385052960432475849668645866198956432477443667196712938nat, 1nat, 904635337642874622174149304969929251440157903731605646469298949679840112597nat);
    lemma_pow_mod_bit(2, 103845937170696552570609926584401919nat, 2261564242916331941866620800950935700259179388000792266395655937654553313279nat, 51922968585348276285304963292200959nat, 1nat, 904635337642874622174149304969929251440157903731605646469298949679840112597nat, 361857991288781499285043229476917223345591296239431504547980434022470710261nat, 210004862265171400135236403874233691414338541263427778965969305831665228590nat, 0nat, 420009724530342800270472807748467382828677082526855557931938611663330457180nat);
    lemma_pow_mod_bit(2, 207691874341393105141219853168803839nat, 2261564242916331941866620800950935700259179388000792266395655937654553313279nat, 103845937170696552570609926584401919nat, 1nat, 420009724530342800270472807748467382828677082526855557931938611663330457180nat, 78002722784727357824499675395656860085307979972506028957546535343631961472nat, 2018247455691082159678573785955923938774901117201850365302212923568539565712nat, 1nat, 1774930668465832377490526770960912177290622846402908464208769909482525818145nat);
    lemma_pow_mod_bit(2, 415383748682786210282439706337607679nat, 2261564242916331941866620800950935700259179388000792266395655937654553313279nat, 207691874341393105141219853168803839nat, 1nat, 1774930668465832377490526770960912177290622846402908464208769909482525818145nat, 1393008793682593128466667717410574781736834298060702712778288898864116008776nat, 1216693754278384134718048014412855483899821628991110448655386530745369904521nat, 1nat, 171823265640436327569475227874775267540463869981428630915117123836186495763nat);
    lemma_pow_mod_bit(2, 830767497365572420564879412675215359nat, 2261564242916331941866620800950935700259179388000792266395655937654553313279nat, 415383748682786210282439706337607679nat, 1nat, 171823265640436327569475227874775267540463869981428630915117123836186495763nat, 13054342678001112421827512869586770058601304473664272027543718587505341400nat, 1649695934531858260823286133746190972140592408050424773786464489925568501569nat, 1nat, 1037827626147384579779951466541446244022005428100057281177273042196583689859nat);
    lemma_pow_mod_bit(2, 1661534994731144841129758825350430719nat, 2261564242916331941866620800950935700259179388000792266395655937654553313279nat, 830767497365572420564879412675215359nat, 1nat, 1037827626147384579779951466541446244022005428100057281177273042196583689859nat, 476257168005889349182174337290194607530047220030145019089585267267928337086nat, 531714283791190863360206881529381696343925539965234267603688438605427474887nat, 0nat, 1063428567582381726720413763058763392687851079930468535207376877210854949774nat);
    lemma_pow_mod_bit(2, 3323069989462289682259517650700861439nat, 2261564242916331941866620800950935700259179388000792266395655937654553313279nat, 1661534994731144841129758825350430719nat, 1nat, 1063428567582381726720413763058763392687851079930468535207376877210854949774nat, 500043419899504434042771692780900551063023204680166095592522873353461160129nat, 1859195373518184463387929468757817326657784592937077922659921522319941598085nat, 1nat, 1456826504120036984909238136564698953056389797873363578924187106985329882891nat);
    lemma_pow_mod_bit(2, 6646139978924579364519035301401722879nat, 2261564242916331941866620800950935700259179388000792266395655937654553313279nat, 3323069989462289682259517650700861439nat, 1nat, 1456826504120036984909238136564698953056389797873363578924187106985329882891nat, 938440493014606630341353661490584836133370756282692800934309154795692252209nat, 1230547866035596472579311729153165904104560521993949511764714177161117734570nat, 1nat, 199531489154861003292002657355396107949941655987106757133772416667682155861nat);
    lemma_pow_mod_bit(2, 13292279957849158729038070602803445759nat, 2261564242916331941866620800950935700259179388000792266395655937654553313279nat, 6646139978924579364519035301401722879nat, 1nat, 199531489154861003292002657355396107949941655987106757133772416667682155861nat, 17604105339504748918462684087770795984591924906134723209107915600101233774nat, 1970072227565358859118791809410398523759434981929143685408751214605259166375nat, 1nat, 1678580212214385776370962817869861347259690575857495104421846491555965019471nat);
    lemma_pow_mod_bit(2, 26584559915698317458076141205606891519nat, 2261564242916331941866620800950935700259179388000792266395655937654553313279nat, 13292279957849158729038070602803445759nat, 1nat, 1678580212214385776370962817869861347259690575857495104421846491555965019471nat, 1245877289430567160512983743338553890030731774403297582058259701997043409037nat, 1019884742432860061262597761978405089787481019242845017252716281231808417518nat, 0nat, 2039769484865720122525195523956810179574962038485690034505432562463616835036nat);
    lemma_pow_mod_bit(2, 53169119831396634916152282411213783039nat, 2261564242916331941866620800950935700259179388000792266395655937654553313279nat, 26584559915698317458076141205606891519nat, 1nat, 2039769484865720122525195523956810179574962038485690034505432562463616835036nat, 1839726447931504358935776364399832673801420784143243422859794325084699822267nat, 1642216953404038238787259997874877826680392199391471574639014039790366137803nat, 1nat, 1022869663891744535707899194798819953101605010782150882882372141926178962327nat);
    lemma_pow_mod_bit(2, 106338239662793269832304564822427566079nat, 2261564242916331941866620800950935700259179388000792266395655937654553313279nat, 53169119831396634916152282411213783039nat, 1nat, 1022869663891744535707899194798819953101605010782150882882372141926178962327nat, 462627737676306018466035599987370776697189641333498630345260162939250478098nat, 424302000356560646573551515016618737701630109927451138378163009187763191587nat, 0nat, 848604000713121293147103030033237475403260219854902276756326018375526383174nat);
    lemma_pow_mod_bit(2, 212676479325586539664609129644855132159nat, 2261564242916331941866620800950935700259179388000792266395655937654553313279nat, 106338239662793269832304564822427566079nat, 1nat, 848604000713121293147103030033237475403260219854902276756326018375526383174nat, 318420647249752613564429684514013735379634048029675952263146733157973016096nat, 1379802511545910908890145064969375147236440186549251353612216170432272775492nat, 1nat, 498040780175489875913669328987814594213700985097710440828776403209992237705nat);
}

/// Square-and-multiply for `2^2261564242916331941866620800950935700259179388000792266395655937654553313278 mod 2261564242916331941866620800950935700259179388000792266395655937654553313279`, up to the exponent `13937965749081639463459823920405225941237759`.
proof fn pow_p_full_8()
    requires
        pow_mod(2, 212676479325586539664609129644855132159nat, 2261564242916331941866620800950935700259179388000792266395655937654553313279nat) == 498040780175489875913669328987814594213700985097710440828776403209992237705nat,
    ensures
        pow_mod(2, 13937965749081639463459823920405225941237759nat, 2261564242916331941866620800950935700259179388000792266395655937654553313279nat) == 693885260133149833752357299490724706169850260275309194381520840622316195475nat,
{
    lemma_pow_mod_bit(2, 425352958651173079329218259289710264319nat, 2261564242916331941866620800950935700259179388000792266395655937654553313279nat, 212676479325586539664609129644855132159nat, 1nat, 498040780175489875913669328987814594213700985097710440828776403209992237705nat, 109678342985274729324571982026158048522724027193498706043794429814039204931nat, 2055099021603342226503521201373815695381179587818725150584683361764299088276nat, 1nat, 1848633800290352511140421601796695690503179787636658034773710785874044863273nat);
    lemma_pow_mod_bit(2, 850705917302346158658436518579420528639nat, 2261564242916331941866620800950935700259179388000792266395655937654553313279nat, 425352958651173079329218259289710264319nat, 1nat, 1848633800290352511140421601796695690503179787636658034773710785874044863273nat, 1511098761965340124615605639233485558979423763390719724354809567553955273832nat, 1085622080057121786105795575167546671696938769205122646673280951805937457401nat, 0nat, 2171244160114243572211591150335093343393877538410245293346561903611874914802nat);
    lemma_pow_mod_bit(2, 1701411834604692317316873037158841057279nat, 2261564242916331941866620800950935700259179388000792266395655937654553313279nat, 850705917302346158658436518579420528639nat, 1nat, 2171244160114243572211591150335093343393877538410245293346561903611874914802nat, 2084531190124858927022384637700846897166501348234359799221362714031243184960nat, 441179151292654713339426107605970603851753789865275283083770816998137615364nat, 0nat, 882358302585309426678852215211941207703507579730550566167541633996275230728nat);
    lemma_pow_mod_bit(2, 3402823669209384634633746074317682114559nat, 2261564242916331941866620800950935700259179388000792266395655937654553313279nat, 1701411834604692317316873037158841057279nat, 1nat, 882358302585309426678852215211941207703507579730550566167541633996275230728nat, 344255608294047327811402072554919925256490079185588659500807135144013745003nat, 1557017836432212472944773633789568623717461852733424734486980584698955615147nat, 1nat, 852471429948093004022926466628201547175744317466057202578305231743357917015nat);
    lemma_pow_mod_bit(2, 6805647338418769269267492148635364229119nat, 2261564242916331941866620800950935700259179388000792266395655937654553313279nat, 3402823669209384634633746074317682114559nat, 1nat, 852471429948093004022926466628201547175744317466057202578305231743357917015nat, 321329602355510650721492937289626390309950383729284023689377746820611540872nat, 1016580499224716580565136466057425922710810140235833674689954528126497670937nat, 0nat, 2033160998449433161130272932114851845421620280471667349379909056252995341874nat);
    lemma_pow_mod_bit(2, 13611294676837538538534984297270728458239nat, 2261564242916331941866620800950935700259179388000792266395655937654553313279nat, 6805647338418769269267492148635364229119nat, 1nat, 2033160998449433161130272932114851845421620280471667349379909056252995341874nat, 1827824992618981074320920595493405749730086980409162320757822086664817850559nat, 1213090048368457580160930601454525814559598494346029849794739310525605558915nat, 1nat, 164615853820583218455240401958115928860017600691267433193822683396657804551nat);
    lemma_pow_mod_bit(2, 27222589353675077077069968594541456916479nat, 2261564242916331941866620800950935700259179388000792266395655937654553313279nat, 13611294676837538538534984297270728458239nat, 1nat, 164615853820583218455240401958115928860017600691267433193822683396657804551nat, 11982139978537918979926540243234644541262247644152148502326848168033501411nat, 944241490696058297359349187669512141105662000658632261722747787777744774932nat, 0nat, 1888482981392116594718698375339024282211324001317264523445495575555489549864nat);
    lemma_pow_mod_bit(2, 54445178707350154154139937189082913832959nat, 2261564242916331941866620800950935700259179388000792266395655937654553313279nat, 27222589353675077077069968594541456916479nat, 1nat, 1888482981392116594718698375339024282211324001317264523445495575555489549864nat, 1576947452268150104304281731190957810413979352343387998461825900526973918302nat, 1130729333683962746277681966332549453002268266031837356548434297918184686238nat, 0nat, 2261458667367925492555363932665098906004536532063674713096868595836369372476nat);
    lemma_pow_mod_bit(2, 108890357414700308308279874378165827665919nat, 2261564242916331941866620800950935700259179388000792266395655937654553313279nat, 54445178707350154154139937189082913832959nat, 1nat, 2261458667367925492555363932665098906004536532063674713096868595836369372476nat, 2261353096748053112631974805160394886564446988513317991184941496357848117920nat, 162318181991779754324281715763882906693147395646213688947621996707732510896nat, 0nat, 324636363983559508648563431527765813386294791292427377895243993415465021792nat);
    lemma_pow_mod_bit(2, 217780714829400616616559748756331655331839nat, 2261564242916331941866620800950935700259179388000792266395655937654553313279nat, 108890357414700308308279874378165827665919nat, 1nat, 324636363983559508648563431527765813386294791292427377895243993415465021792nat, 46599944772988286151967298456082630437551583151562153072717979482729730892nat, 1727267003933507448320784947929681109566733929826366104208181525988394776396nat, 1nat, 1192969764950682954774949094908426518874288471651939942020707114322236239513nat);
    lemma_pow_mod_bit(2, 435561429658801233233119497512663310663679nat, 2261564242916331941866620800950935700259179388000792266395655937654553313279nat, 217780714829400616616559748756331655331839nat, 1nat, 1192969764950682954774949094908426518874288471651939942020707114322236239513nat, 629288716667748934791600470062263022822382830903460662184629939413783384031nat, 1244269742154534366775529996006819887874871794625548647281097994191593629520nat, 1nat, 226975241392736791684439191062704075490564201250305028166540050728633945761nat);
    lemma_pow_mod_bit(2, 871122859317602466466238995025326621327359nat, 2261564242916331941866620800950935700259179388000792266395655937654553313279nat, 435561429658801233233119497512663310663679nat, 1nat, 226975241392736791684439191062704075490564201250305028166540050728633945761nat, 22779702308548159379233530784301678300001793354395658012003239659917036190nat, 1365788851436056098714796479334835686281756813888894956877929776821639302111nat, 1nat, 470013459955780255562972157718735672304334239776997647360203615988725290943nat);
    lemma_pow_mod_bit(2, 1742245718635204932932477990050653242654719nat, 2261564242916331941866620800950935700259179388000792266395655937654553313279nat, 871122859317602466466238995025326621327359nat, 1nat, 470013459955780255562972157718735672304334239776997647360203615988725290943nat, 97681351848193621648363981879165503924169918611574176232577525696059597569nat, 2105132872134357313035092274465849233665841439103584518175231383883674010498nat, 1nat, 1948701501352382684203563747980762767072503490206376769954806830112794707717nat);
    lemma_pow_mod_bit(2, 3484491437270409865864955980101306485309439nat, 2261564242916331941866620800950935700259179388000792266395655937654553313279nat, 1742245718635204932932477990050653242654719nat, 1nat, 1948701501352382684203563747980762767072503490206376769954806830112794707717nat, 1679119907058735290761610006861975060913533371789396284878392952021427772232nat, 1824419436843397754634315872706993993917157903996188035991490006320106283361nat, 1nat, 1387274630770463567402010944463052287575136419991583805587324074985659253443nat);
    lemma_pow_mod_bit(2, 6968982874540819731729911960202612970618879nat, 2261564242916331941866620800950935700259179388000792266395655937654553313279nat, 3484491437270409865864955980101306485309439nat, 1nat, 1387274630770463567402010944463052287575136419991583805587324074985659253443nat, 850973350506110433381982604224835370249788456648079260348695296142987126823nat, 811336924749284372679689990801450769825433578091111302120506108572884371632nat, 0nat, 1622673849498568745359379981602901539650867156182222604241012217145768743264nat);
    lemma_pow_mod_bit(2, 13937965749081639463459823920405225941237759nat, 2261564242916331941866620800950935700259179388000792266395655937654553313279nat, 6968982874540819731729911960202612970618879nat, 1nat, 1622673849498568745359379981602901539650867156182222604241012217145768743264nat, 1164269567001602043418139180420791217050291291400577541230094850135133266761nat, 1477724751524740887809489050220830203214514824138050730388588389138434754377nat, 1nat, 693885260133149833752357299490724706169850260275309194381520840622316195475nat);
}

/// Square-and-multiply for `2^2261564242916331941866620800950935700259179388000792266395655937654553313278 mod 2261564242916331941866620800950935700259179388000792266395655937654553313279`, up to the exponent `913438523331814323877303020447676887284957839359`.
proof fn pow_p_full_9()
    requires
        pow_mod(2, 13937965749081639463459823920405225941237759nat, 2261564242916331941866620800950935700259179388000792266395655937654553313279nat) == 693885260133149833752357299490724706169850260275309194381520840622316195475nat,
    ensures
        pow_mod(2, 913438523331814323877303020447676887284957839359nat, 2261564242916331941866620800950935700259179388000792266395655937654553313279nat) == 582997800435942183641400048405391490730933151157409968959776881570079438089nat,
{
    lemma_pow_mod_bit(2, 27875931498163278926919647840810451882475519nat, 2261564242916331941866620800950935700259179388000792266395655937654553313279nat, 13937965749081639463459823920405225941237759nat, 1nat, 693885260133149833752357299490724706169850260275309194381520840622316195475nat, 212895457530392853650691801558050466887016069739374588052011919153935060489nat, 880982488885788451180612451627389136947599738504260240595195683600178542194nat, 0nat, 1761964977771576902361224903254778273895199477008520481190391367200357084388nat);
    lemma_pow_mod_bit(2, 55751862996326557853839295681620903764951039nat, 2261564242916331941866620800950935700259179388000792266395655937654553313279nat, 27875931498163278926919647840810451882475519nat, 1nat, 1761964977771576902361224903254778273895199477008520481190391367200357084388nat, 1372731547475411367545344139557526849482251100038274405766400402114134157505nat, 1155342781065179749754260040529321569461920541651274807163531760255159325649nat, 1nat, 49121319214027557641899280107707438664661695301757347931407582855765338019nat);
    lemma_pow_mod_bit(2, 111503725992653115707678591363241807529902079nat, 2261564242916331941866620800950935700259179388000792266395655937654553313279nat, 55751862996326557853839295681620903764951039nat, 1nat, 49121319214027557641899280107707438664661695301757347931407582855765338019nat, 1066918177931087799472136111355773879034974032640736458099441774101353640nat, 1917838613695981118827819660199915773302423601695121989812290312952439858801nat, 1nat, 1574112984475630295789018519448895846345667815389451713228924688250326404323nat);
    lemma_pow_mod_bit(2, 223007451985306231415357182726483615059804159nat, 2261564242916331941866620800950935700259179388000792266395655937654553313279nat, 111503725992653115707678591363241807529902079nat, 1nat, 1574112984475630295789018519448895846345667815389451713228924688250326404323nat, 1095627371920048931921082489964011510903989984156363314130765097737105278096nat, 1218425958157810606710427981546635016017224480050694076479580121106568451545nat, 1nat, 175287673399289271554235162142334331775269572100595886563504304558583589811nat);
    lemma_pow_mod_bit(2, 446014903970612462830714365452967230119608319nat, 2261564242916331941866620800950935700259179388000792266395655937654553313279nat, 223007451985306231415357182726483615059804159nat, 1nat, 175287673399289271554235162142334331775269572100595886563504304558583589811nat, 13586069262447488970801014241778674082462709680186696631840426720693132969nat, 1721454481743736294775332552189528155140896838239487882591538044861642620370nat, 1nat, 1181344720571140647684044303428120610022614288478183498787420152068731927461nat);
    lemma_pow_mod_bit(2, 892029807941224925661428730905934460239216639nat, 2261564242916331941866620800950935700259179388000792266395655937654553313279nat, 446014903970612462830714365452967230119608319nat, 1nat, 1181344720571140647684044303428120610022614288478183498787420152068731927461nat, 617084105920282984510989253183359531134134587009464655089001323046159150883nat, 2187897867911861224673145753985684891027033500661362095095430359891237431164nat, 1nat, 2114231492907390507479670707020434081794887613321931923795204782127921549049nat);
    lemma_pow_mod_bit(2, 1784059615882449851322857461811868920478433279nat, 2261564242916331941866620800950935700259179388000792266395655937654553313279nat, 892029807941224925661428730905934460239216639nat, 1nat, 2114231492907390507479670707020434081794887613321931923795204782127921549049nat, 1976496939939805591720018187313585593146027273886589227778462516504242821753nat, 1054884955051803482800438434248573019672970428936176331021070146517347846314nat, 0nat, 2109769910103606965600876868497146039345940857872352662042140293034695692628nat);
    lemma_pow_mod_bit(2, 3568119231764899702645714923623737840956866559nat, 2261564242916331941866620800950935700259179388000792266395655937654553313279nat, 1784059615882449851322857461811868920478433279nat, 1nat, 2109769910103606965600876868497146039345940857872352662042140293034695692628nat, 1968163888123187959158281183157418827116448559718574366425456858124599813844nat, 570537769510196109265872202000195006440687472368638922363880899399840311908nat, 0nat, 1141075539020392218531744404000390012881374944737277844727761798799680623816nat);
    lemma_pow_mod_bit(2, 7136238463529799405291429847247475681913733119nat, 2261564242916331941866620800950935700259179388000792266395655937654553313279nat, 3568119231764899702645714923623737840956866559nat, 1nat, 1141075539020392218531744404000390012881374944737277844727761798799680623816nat, 575731328362202517700517207942839459170521408523442730886366800594673739011nat, 1198524893174657510434624868676306244353712118449465152235600746085539774787nat, 1nat, 135485543432983079002628936401676788448244848898138038075545554516526236295nat);
    lemma_pow_mod_bit(2, 14272476927059598810582859694494951363827466239nat, 2261564242916331941866620800950935700259179388000792266395655937654553313279nat, 7136238463529799405291429847247475681913733119nat, 1nat, 135485543432983079002628936401676788448244848898138038075545554516526236295nat, 8116653124856576948426523415341675543608626473270733129309051389069671834nat, 2147964586379302567971332604017896022741515753921436097236908158760250843339nat, 1nat, 2034364929842273194076044407084856345223852119842079928078160379865948373399nat);
    lemma_pow_mod_bit(2, 28544953854119197621165719388989902727654932479nat, 2261564242916331941866620800950935700259179388000792266395655937654553313279nat, 14272476927059598810582859694494951363827466239nat, 1nat, 2034364929842273194076044407084856345223852119842079928078160379865948373399nat, 1829990317867467659347190650820355283752998096763451576407686316227226139610nat, 157090065695651776433643497130018363245784466470992205136924555051809932011nat, 0nat, 314180131391303552867286994260036726491568932941984410273849110103619864022nat);
    lemma_pow_mod_bit(2, 57089907708238395242331438777979805455309864959nat, 2261564242916331941866620800950935700259179388000792266395655937654553313279nat, 28544953854119197621165719388989902727654932479nat, 1nat, 314180131391303552867286994260036726491568932941984410273849110103619864022nat, 43646407688940709136498864223732065574644423388977795468375617801170422405nat, 1030679563971305618825717528880190721887000074892773933037775945609044400489nat, 0nat, 2061359127942611237651435057760381443774000149785547866075551891218088800978nat);
    lemma_pow_mod_bit(2, 114179815416476790484662877555959610910619729919nat, 2261564242916331941866620800950935700259179388000792266395655937654553313279nat, 57089907708238395242331438777979805455309864959nat, 1nat, 2061359127942611237651435057760381443774000149785547866075551891218088800978nat, 1878877183198162499056155693978235338798219945411920071187295757939517362614nat, 2078359703054247400363383665101664305281063568903493094960224804880309405178nat, 1nat, 1895155163192162858860146529252392910302947749806193923524793672106065497077nat);
    lemma_pow_mod_bit(2, 228359630832953580969325755111919221821239459839nat, 2261564242916331941866620800950935700259179388000792266395655937654553313279nat, 114179815416476790484662877555959610910619729919nat, 1nat, 1895155163192162858860146529252392910302947749806193923524793672106065497077nat, 1588110133870200002207534486535176522482918623583657711642358689394360503286nat, 2018606609010744090809735995967570624286673212807175289468892965828609135nat, 0nat, 4037213218021488181619471991935141248573346425614350578937785931657218270nat);
    lemma_pow_mod_bit(2, 456719261665907161938651510223838443642478919679nat, 2261564242916331941866620800950935700259179388000792266395655937654553313279nat, 228359630832953580969325755111919221821239459839nat, 1nat, 4037213218021488181619471991935141248573346425614350578937785931657218270nat, 7206998704025059991305253827135481954097827217471901544066074459891548nat, 1142990272611058386759829384525775888321644600686446664574094645456013527008nat, 1nat, 24416302305784831653037968100616076384109813372101062752533353257473740737nat);
    lemma_pow_mod_bit(2, 913438523331814323877303020447676887284957839359nat, 2261564242916331941866620800950935700259179388000792266395655937654553313279nat, 456719261665907161938651510223838443642478919679nat, 1nat, 24416302305784831653037968100616076384109813372101062752533353257473740737nat, 263603309149740949374358947616723582863081039827763675611886483708627715nat, 1422281021676137062754010424678163595495056269579101117677716409612316375684nat, 1nat, 582997800435942183641400048405391490730933151157409968959776881570079438089nat);
}

/// Square-and-multiply for `2^2261564242916331941866620800950935700259179388000792266395655937654553313278 mod 2261564242916331941866620800950935700259179388000792266395655937654553313279`, up to the exponent `59863107065073783529622930748058952485106996960296959`.
proof fn pow_p_full_10()
    requires
        pow_mod(2, 913438523331814323877303020447676887284957839359nat, 2261564242916331941866620800950935700259179388000792266395655937654553313279nat) == 582997800435942183641400048405391490730933151157409968959776881570079438089nat,
    ensures
        pow_mod(2, 59863107065073783529622930748058952485106996960296959nat, 2261564242916331941866620800950935700259179388000792266395655937654553313279nat) == 941225959940968122918980382589976646420437766293838782131287561662047944826nat,
{
    lemma_pow_mod_bit(2, 1826877046663628647754606040895353774569915678719nat, 2261564242916331941866620800950935700259179388000792266395655937654553313279nat, 913438523331814323877303020447676887284957839359nat, 1nat, 582997800435942183641400048405391490730933151157409968959776881570079438089nat, 150288207101672411177600176464964529290491509041344760651004464856399370408nat, 495850989529404551103293606405944238620657465101108307410771407263997924089nat, 0nat, 991701979058809102206587212811888477241314930202216614821542814527995848178nat);
    lemma_pow_mod_bit(2, 3653754093327257295509212081790707549139831357439nat, 2261564242916331941866620800950935700259179388000792266395655937654553313279nat, 1826877046663628647754606040895353774569915678719nat, 1nat, 991701979058809102206587212811888477241314930202216614821542814527995848178nat, 434863974503307033133564247248404839015416510990548774715930805460613124439nat, 2151940178114694813442661751576810527538396575710802790563750797865847794203nat, 1nat, 2042316113313057685018702702202685354817613763420813314731845658077142275127nat);
    lemma_pow_mod_bit(2, 7307508186654514591018424163581415098279662714879nat, 2261564242916331941866620800950935700259179388000792266395655937654553313279nat, 3653754093327257295509212081790707549139831357439nat, 1nat, 2042316113313057685018702702202685354817613763420813314731845658077142275127nat, 1844323069646474423733745413517872389650856074197851442502657793655061860403nat, 1589287991351880613824491632795746485343917123766302992678820756280338674692nat, 1nat, 917011739787429285782362464640557270428654859531813718961985574906124036105nat);
    lemma_pow_mod_bit(2, 14615016373309029182036848327162830196559325429759nat, 2261564242916331941866620800950935700259179388000792266395655937654553313279nat, 7307508186654514591018424163581415098279662714879nat, 1nat, 917011739787429285782362464640557270428654859531813718961985574906124036105nat, 371826948335368582204166835646911841992243422493252086841581314310082895834nat, 1979511858942827885359511496628495757151188273262291364156145423923617591339nat, 1nat, 1697459474969323828852402192306055814043197158523790461916634910192681869399nat);
    lemma_pow_mod_bit(2, 29230032746618058364073696654325660393118650859519nat, 2261564242916331941866620800950935700259179388000792266395655937654553313279nat, 14615016373309029182036848327162830196559325429759nat, 1nat, 1697459474969323828852402192306055814043197158523790461916634910192681869399nat, 1274060057408561814269537853109794489641541722971163324139933563644927792093nat, 2060642132825166311311351682441284116881242388979611210872128616910084518254nat, 1nat, 1859720022734000680756082563931632533503305389958430155348601296165615723229nat);
    lemma_pow_mod_bit(2, 58460065493236116728147393308651320786237301719039nat, 2261564242916331941866620800950935700259179388000792266395655937654553313279nat, 29230032746618058364073696654325660393118650859519nat, 1nat, 1859720022734000680756082563931632533503305389958430155348601296165615723229nat, 1529277169017260439568055373430453125555439911004829439364674436602891152748nat, 1467289977892226858597812646300182813873455413447744383546875250865644445749nat, 1nat, 673015712868121775329004491649429927487731438894696500698094564076735578219nat);
    lemma_pow_mod_bit(2, 116920130986472233456294786617302641572474603438079nat, 2261564242916331941866620800950935700259179388000792266395655937654553313279nat, 58460065493236116728147393308651320786237301719039nat, 1nat, 673015712868121775329004491649429927487731438894696500698094564076735578219nat, 200281796630856673483721836312706140663982548080368393850159649409040460139nat, 1263021804399912879969872352471879581055699916267052561042089233455088326180nat, 1nat, 264479365883493818073123903992823461852220444533312855688522529255623339081nat);
    lemma_pow_mod_bit(2, 233840261972944466912589573234605283144949206876159nat, 2261564242916331941866620800950935700259179388000792266395655937654553313279nat, 116920130986472233456294786617302641572474603438079nat, 1nat, 264479365883493818073123903992823461852220444533312855688522529255623339081nat, 30929625456022394077120240686997435688303403440656125716902496951933396289nat, 553829014546575932243469170871095046883851453415828069099782442023628902930nat, 0nat, 1107658029093151864486938341742190093767702906831656138199564884047257805860nat);
    lemma_pow_mod_bit(2, 467680523945888933825179146469210566289898413752319nat, 2261564242916331941866620800950935700259179388000792266395655937654553313279nat, 233840261972944466912589573234605283144949206876159nat, 1nat, 1107658029093151864486938341742190093767702906831656138199564884047257805860nat, 542503408097930326591887880265489749017690402173707119211190275612890838358nat, 1527206350367269882277705758652932060513978450874249458351218598128526383718nat, 1nat, 792848457818207822688790716354928420768777513747706650306781258602499454157nat);
    lemma_pow_mod_bit(2, 935361047891777867650358292938421132579796827504639nat, 2261564242916331941866620800950935700259179388000792266395655937654553313279nat, 467680523945888933825179146469210566289898413752319nat, 1nat, 792848457818207822688790716354928420768777513747706650306781258602499454157nat, 277953049104679473387207682226601532585958759290852929366692550686909243612nat, 2104066337788932538732171467882970304666829318231590039089954049276579056901nat, 1nat, 1946568432661533135597722134815004909074479248462387811784252160898604800523nat);
    lemma_pow_mod_bit(2, 1870722095783555735300716585876842265159593655009279nat, 2261564242916331941866620800950935700259179388000792266395655937654553313279nat, 935361047891777867650358292938421132579796827504639nat, 1nat, 1946568432661533135597722134815004909074479248462387811784252160898604800523nat, 1675445955118312759317358394989094954412778381681593874730934058799469860290nat, 949379262145500559306670610722959889993067075319940068594903051461889282619nat, 0nat, 1898758524291001118613341221445919779986134150639880137189806102923778565238nat);
    lemma_pow_mod_bit(2, 3741444191567111470601433171753684530319187310018559nat, 2261564242916331941866620800950935700259179388000792266395655937654553313279nat, 1870722095783555735300716585876842265159593655009279nat, 1nat, 1898758524291001118613341221445919779986134150639880137189806102923778565238nat, 1594154994650364277877353468656402416891603285375933234099696713118902284197nat, 2103182510982805535654382054558288472511658286804252974914038551590190044681nat, 1nat, 1944800779049279129442143308165641244764137185607713683432421165525826776083nat);
    lemma_pow_mod_bit(2, 7482888383134222941202866343507369060638374620037119nat, 2261564242916331941866620800950935700259179388000792266395655937654553313279nat, 3741444191567111470601433171753684530319187310018559nat, 1nat, 1944800779049279129442143308165641244764137185607713683432421165525826776083nat, 1672404435132648076253950711176249882733490599334490913077777911523160736884nat, 1727649913802724646179738650289927886832372075802045746648537653936078540253nat, 1nat, 1193735584689117350492856499628920073405564763603299226901419370217603767227nat);
    lemma_pow_mod_bit(2, 14965776766268445882405732687014738121276749240074239nat, 2261564242916331941866620800950935700259179388000792266395655937654553313279nat, 7482888383134222941202866343507369060638374620037119nat, 1nat, 1193735584689117350492856499628920073405564763603299226901419370217603767227nat, 630096912177695695564140725056601602182916394731089843764752004149279396308nat, 1507815814834725841638829828845213692936264355616669479426908321692079295597nat, 1nat, 754067386753119741411038856739491685613349323232546692458160705729605277915nat);
    lemma_pow_mod_bit(2, 29931553532536891764811465374029476242553498480148479nat, 2261564242916331941866620800950935700259179388000792266395655937654553313279nat, 14965776766268445882405732687014738121276749240074239nat, 1nat, 754067386753119741411038856739491685613349323232546692458160705729605277915nat, 251426695282127101363962366693449327518002111957099878137335415125775143427nat, 1964725818432438826118711523855576570231136311022873125796432969140098080092nat, 1nat, 1667887393948545710370802246760217440203093234044953985197210000625642846905nat);
    lemma_pow_mod_bit(2, 59863107065073783529622930748058952485106996960296959nat, 2261564242916331941866620800950935700259179388000792266395655937654553313279nat, 29931553532536891764811465374029476242553498480148479nat, 1nat, 1667887393948545710370802246760217440203093234044953985197210000625642846905nat, 1230054979691942195900396449518237020214527282213978931136801655843752601228nat, 470612979970484061459490191294988323210218883146919391065643780831023972413nat, 0nat, 941225959940968122918980382589976646420437766293838782131287561662047944826nat);
}

/// Square-and-multiply for `2^2261564242916331941866620800950935700259179388000792266395655937654553313278 mod 2261564242916331941866620800950935700259179388000792266395655937654553313279`, up to the exponent `3923188584616675477397368389504791510063972152790021570559`.
proof fn pow_p_full_11()
    requires
        pow_mod(2, 59863107065073783529622930748058952485106996960296959nat, 2261564242916331941866620800950935700259179388000792266395655937654553313279nat) == 941225959940968122918980382589976646420437766293838782131287561662047944826nat,
    ensures
        pow_mod(2, 3923188584616675477397368389504791510063972152790021570559nat, 2261564242916331941866620800950935700259179388000792266395655937654553313279nat) == 754873500064224121843350303032212319036699218831826992668288836578587748229nat,
{
    lemma_pow_mod_bit(2, 119726214130147567059245861496117904970213993920593919nat, 2261564242916331941866620800950935700259179388000792266395655937654553313279nat, 59863107065073783529622930748058952485106996960296959nat, 1nat, 941225959940968122918980382589976646420437766293838782131287561662047944826nat, 391722813288028986919859540434660222679565815094561136165023629926540757396nat, 1629233294297358844553019779423967442772541063047412630894847835744415908792nat, 1nat, 996902345678385747239418757896999185285902738094032995394039733834278504305nat);
    lemma_pow_mod_bit(2, 239452428260295134118491722992235809940427987841187839nat, 2261564242916331941866620800950935700259179388000792266395655937654553313279nat, 119726214130147567059245861496117904970213993920593919nat, 1nat, 996902345678385747239418757896999185285902738094032995394039733834278504305nat, 439436681903638730187850694091507747770188829693077327578389952901880627358nat, 884297784123639571683921497594004381144671424144287634295674002065871446143nat, 0nat, 1768595568247279143367842995188008762289342848288575268591348004131742892286nat);
    lemma_pow_mod_bit(2, 478904856520590268236983445984471619880855975682375679nat, 2261564242916331941866620800950935700259179388000792266395655937654553313279nat, 239452428260295134118491722992235809940427987841187839nat, 1nat, 1768595568247279143367842995188008762289342848288575268591348004131742892286nat, 1383082657864446992108296067078251434801899577333140575381191622055422287613nat, 1412929477648806226784442499654770378096992118213567272604385050289768192769nat, 1nat, 564294712381280511702264198358605055934804848426342278813114162924983072259nat);
    lemma_pow_mod_bit(2, 957809713041180536473966891968943239761711951364751359nat, 2261564242916331941866620800950935700259179388000792266395655937654553313279nat, 478904856520590268236983445984471619880855975682375679nat, 1nat, 564294712381280511702264198358605055934804848426342278813114162924983072259nat, 140800122489932986645444174911188630437920144181701421192627728753859538954nat, 441031817792663609866872346048337377290891098960592628238018902378349392915nat, 0nat, 882063635585327219733744692096674754581782197921185256476037804756698785830nat);
    lemma_pow_mod_bit(2, 1915619426082361072947933783937886479523423902729502719nat, 2261564242916331941866620800950935700259179388000792266395655937654553313279nat, 957809713041180536473966891968943239761711951364751359nat, 1nat, 882063635585327219733744692096674754581782197921185256476037804756698785830nat, 344025715678415463489863884208735185329310211725818833312818235951422342422nat, 1432792739431916446343311731189693648028591437180520295745338577608831167162nat, 1nat, 604021235947500950820002661428451595798003486360248325095021217563109021045nat);
    lemma_pow_mod_bit(2, 3831238852164722145895867567875772959046847805459005439nat, 2261564242916331941866620800950935700259179388000792266395655937654553313279nat, 1915619426082361072947933783937886479523423902729502719nat, 1nat, 604021235947500950820002661428451595798003486360248325095021217563109021045nat, 161322701585109988860112765557900603458342258687443915564740438837565283575nat, 1294332151324003792998930666896567496190737079462810843538650683776804799600nat, 1nat, 327100059731675644131240532842199292122294770924829420681645429899056285921nat);
    lemma_pow_mod_bit(2, 7662477704329444291791735135751545918093695610918010879nat, 2261564242916331941866620800950935700259179388000792266395655937654553313279nat, 3831238852164722145895867567875772959046847805459005439nat, 1nat, 327100059731675644131240532842199292122294770924829420681645429899056285921nat, 47309931350211971117651123275625135501376276171739754306118082100046419071nat, 1279773714278942394110149971008607736873612616634952045606114982440519674432nat, 1nat, 297983185641552846353679141066279773488045845269111824816574027226486035585nat);
    lemma_pow_mod_bit(2, 15324955408658888583583470271503091836187391221836021759nat, 2261564242916331941866620800950935700259179388000792266395655937654553313279nat, 7662477704329444291791735135751545918093695610918010879nat, 1nat, 297983185641552846353679141066279773488045845269111824816574027226486035585nat, 39262196156137731315641347247111794482378083738826381321024271862221545371nat, 1812840026748946620551435233817411670492483049633256194366844365882211010716nat, 1nat, 1364115810581561299236249666683887640725786711265720122338032794109868708153nat);
    lemma_pow_mod_bit(2, 30649910817317777167166940543006183672374782443672043519nat, 2261564242916331941866620800950935700259179388000792266395655937654553313279nat, 15324955408658888583583470271503091836187391221836021759nat, 1nat, 1364115810581561299236249666683887640725786711265720122338032794109868708153nat, 822798622903161981455132973633629102726747968544976456243322997754041676527nat, 21349482999896583542665399852331887697366634485369278101726312009276969376nat, 0nat, 42698965999793167085330799704663775394733268970738556203452624018553938752nat);
    lemma_pow_mod_bit(2, 61299821634635554334333881086012367344749564887344087039nat, 2261564242916331941866620800950935700259179388000792266395655937654553313279nat, 30649910817317777167166940543006183672374782443672043519nat, 1nat, 42698965999793167085330799704663775394733268970738556203452624018553938752nat, 806168431059220387564696106222419094765524071803901599124862592615641516nat, 141675594945648068832264087084157925445814501507543835912364493955060826540nat, 0nat, 283351189891296137664528174168315850891629003015087671824728987910121653080nat);
    lemma_pow_mod_bit(2, 122599643269271108668667762172024734689499129774688174079nat, 2261564242916331941866620800950935700259179388000792266395655937654553313279nat, 61299821634635554334333881086012367344749564887344087039nat, 1nat, 283351189891296137664528174168315850891629003015087671824728987910121653080nat, 35501046262245695628279193991849667905661194247152234406360060129624314878nat, 507502030431102179864678761785848395764719130142918834051691114156598821438nat, 0nat, 1015004060862204359729357523571696791529438260285837668103382228313197642876nat);
    lemma_pow_mod_bit(2, 245199286538542217337335524344049469378998259549376348159nat, 2261564242916331941866620800950935700259179388000792266395655937654553313279nat, 122599643269271108668667762172024734689499129774688174079nat, 1nat, 1015004060862204359729357523571696791529438260285837668103382228313197642876nat, 455540118656217898658741762984553442708145706166845234461889233982913774181nat, 212677762649978519641541697559462677143837326768964466625723797342078901877nat, 0nat, 425355525299957039283083395118925354287674653537928933251447594684157803754nat);
    lemma_pow_mod_bit(2, 490398573077084434674671048688098938757996519098752696319nat, 2261564242916331941866620800950935700259179388000792266395655937654553313279nat, 245199286538542217337335524344049469378998259549376348159nat, 1nat, 425355525299957039283083395118925354287674653537928933251447594684157803754nat, 80000965468879637907749689846654829101020362325369066323396820413086666223nat, 1977315130900598712623145707947674392632038903937281748659901410855749817299nat, 1nat, 1693066018884865483379670614944413085004898419873771230924146884056946321319nat);
    lemma_pow_mod_bit(2, 980797146154168869349342097376197877515993038197505392639nat, 2261564242916331941866620800950935700259179388000792266395655937654553313279nat, 490398573077084434674671048688098938757996519098752696319nat, 1nat, 1693066018884865483379670614944413085004898419873771230924146884056946321319nat, 1267473410618782375490396286776657742523203750858971093586909753966226410133nat, 1019949613816490109651855777253048192289220934723715513001505665537704843654nat, 0nat, 2039899227632980219303711554506096384578441869447431026003011331075409687308nat);
    lemma_pow_mod_bit(2, 1961594292308337738698684194752395755031986076395010785279nat, 2261564242916331941866620800950935700259179388000792266395655937654553313279nat, 980797146154168869349342097376197877515993038197505392639nat, 1nat, 2039899227632980219303711554506096384578441869447431026003011331075409687308nat, 1839960492801077228122468543716908592108304293098505976471918889240555713016nat, 1989670147031448406834849047764579934534130288483612934468652830075270347400nat, 1nat, 1717776051146564871803077294578224168809081188966433602541649722495987381521nat);
    lemma_pow_mod_bit(2, 3923188584616675477397368389504791510063972152790021570559nat, 2261564242916331941866620800950935700259179388000792266395655937654553313279nat, 1961594292308337738698684194752395755031986076395010785279nat, 1nat, 1717776051146564871803077294578224168809081188966433602541649722495987381521nat, 1304740544574417805807311401765047458600893918487441999938980701838730709153nat, 1508218871490278031854985551991574009647939303416309629531972387116570530754nat, 1nat, 754873500064224121843350303032212319036699218831826992668288836578587748229nat);
}

/// Square-and-multiply for `2^2261564242916331941866620800950935700259179388000792266395655937654553313278 mod 2261564242916331941866620800950935700259179388000792266395655937654553313279`, up to the exponent `257110087081438444086713934774586016403552479005246853648220159`.
proof fn pow_p_full_12()
    requires
        pow_mod(2, 3923188584616675477397368389504791510063972152790021570559nat, 2261564242916331941866620800950935700259179388000792266395655937654553313279nat) == 754873500064224121843350303032212319036699218831826992668288836578587748229nat,
    ensures
        pow_mod(2, 257110087081438444086713934774586016403552479005246853648220159nat, 2261564242916331941866620800950935700259179388000792266395655937654553313279nat) == 1871185689892707999392276948305026502293240694301425161917603218172632736267nat,
{
    lemma_pow_mod_bit(2, 7846377169233350954794736779009583020127944305580043141119nat, 2261564242916331941866620800950935700259179388000792266395655937654553313279nat, 3923188584616675477397368389504791510063972152790021570559nat, 1nat, 754873500064224121843350303032212319036699218831826992668288836578587748229nat, 251964543074133472370359834340792151304094268567367404176540462382582342645nat, 1902037977347166921330338197506294770114146047395201121214257045378286153486nat, 1nat, 1542511711778001900794055594061653839969112706789609976032858153102018993693nat);
    lemma_pow_mod_bit(2, 15692754338466701909589473558019166040255888611160086282239nat, 2261564242916331941866620800950935700259179388000792266395655937654553313279nat, 7846377169233350954794736779009583020127944305580043141119nat, 1nat, 1542511711778001900794055594061653839969112706789609976032858153102018993693nat, 1052078174840654723691126314012252810406419678628971691272853125807708354349nat, 10777062056836028269016489423868309451707986986785232100186741865834677878nat, 0nat, 21554124113672056538032978847736618903415973973570464200373483731669355756nat);
    lemma_pow_mod_bit(2, 31385508676933403819178947116038332080511777222320172564479nat, 2261564242916331941866620800950935700259179388000792266395655937654553313279nat, 15692754338466701909589473558019166040255888611160086282239nat, 1nat, 21554124113672056538032978847736618903415973973570464200373483731669355756nat, 205424306544789437429605696880286054118070172006660205608838345008844401nat, 2184067058277781714280486894644613419603074685034954748794981696166572230657nat, 1nat, 2106569873639231486694352988338291138946969982069117231194307454678591148035nat);
    lemma_pow_mod_bit(2, 62771017353866807638357894232076664161023554444640345128959nat, 2261564242916331941866620800950935700259179388000792266395655937654553313279nat, 31385508676933403819178947116038332080511777222320172564479nat, 1nat, 2106569873639231486694352988338291138946969982069117231194307454678591148035nat, 1962197910770815543780612129107710774825879267909064640984989281137134919617nat, 74737931633216061803948356307732233596044022249158882625957441902600667082nat, 0nat, 149475863266432123607896712615464467192088044498317765251914883805201334164nat);
    lemma_pow_mod_bit(2, 125542034707733615276715788464153328322047108889280690257919nat, 2261564242916331941866620800950935700259179388000792266395655937654553313279nat, 62771017353866807638357894232076664161023554444640345128959nat, 1nat, 149475863266432123607896712615464467192088044498317765251914883805201334164nat, 9879460099012410644707348491588830882947284751783485835496199878806782505nat, 829639093074198074322374659090111030518405290436442861427514236780312195001nat, 0nat, 1659278186148396148644749318180222061036810580872885722855028473560624390002nat);
    lemma_pow_mod_bit(2, 251084069415467230553431576928306656644094217778561380515839nat, 2261564242916331941866620800950935700259179388000792266395655937654553313279nat, 125542034707733615276715788464153328322047108889280690257919nat, 1nat, 1659278186148396148644749318180222061036810580872885722855028473560624390002nat, 1217389294888037447178085429626225953130581827088118881033598788112151568907nat, 148436643807559343894148974594424866048101735372482198345722828599670943951nat, 0nat, 296873287615118687788297949188849732096203470744964396691445657199341887902nat);
    lemma_pow_mod_bit(2, 502168138830934461106863153856613313288188435557122761031679nat, 2261564242916331941866620800950935700259179388000792266395655937654553313279nat, 251084069415467230553431576928306656644094217778561380515839nat, 1nat, 296873287615118687788297949188849732096203470744964396691445657199341887902nat, 38970261037448472305901568786570427308444239218669110754515573561439466449nat, 1017483381694763883157985421731535003168941488645865833870256950546627285333nat, 0nat, 2034966763389527766315970843463070006337882977291731667740513901093254570666nat);
    lemma_pow_mod_bit(2, 1004336277661868922213726307713226626576376871114245522063359nat, 2261564242916331941866620800950935700259179388000792266395655937654553313279nat, 502168138830934461106863153856613313288188435557122761031679nat, 1nat, 2034966763389527766315970843463070006337882977291731667740513901093254570666nat, 1831073223354483600883095539015338633177348682026230519455766961192779305483nat, 239704504634502298628817519380559088920728113462308716695360256577846274799nat, 0nat, 479409009269004597257635038761118177841456226924617433390720513155692549598nat);
    lemma_pow_mod_bit(2, 2008672555323737844427452615426453253152753742228491044126719nat, 2261564242916331941866620800950935700259179388000792266395655937654553313279nat, 1004336277661868922213726307713226626576376871114245522063359nat, 1nat, 479409009269004597257635038761118177841456226924617433390720513155692549598nat, 101625677399247490194910026351324535373768093699138205791604538034793947621nat, 611290097785733975841402339901230625514396562559064084374947871944160202345nat, 0nat, 1222580195571467951682804679802461251028793125118128168749895743888320404690nat);
    lemma_pow_mod_bit(2, 4017345110647475688854905230852906506305507484456982088253439nat, 2261564242916331941866620800950935700259179388000792266395655937654553313279nat, 2008672555323737844427452615426453253152753742228491044126719nat, 1nat, 1222580195571467951682804679802461251028793125118128168749895743888320404690nat, 660915266628075319231724820872201767067033153105658067391005648928851334318nat, 1525364154993491579602127978847732113950746321002925111775946549138356187378nat, 1nat, 789164067070651217337635156744528527642313254005057957156237160622159061477nat);
    lemma_pow_mod_bit(2, 8034690221294951377709810461705813012611014968913964176506879nat, 2261564242916331941866620800950935700259179388000792266395655937654553313279nat, 4017345110647475688854905230852906506305507484456982088253439nat, 1nat, 789164067070651217337635156744528527642313254005057957156237160622159061477nat, 275375739029373859078988653201422973737479061084922415771316602425301525170nat, 299667900259408267075887415924993741933702647344805873697953727305951689099nat, 0nat, 599335800518816534151774831849987483867405294689611747395907454611903378198nat);
    lemma_pow_mod_bit(2, 16069380442589902755419620923411626025222029937827928353013759nat, 2261564242916331941866620800950935700259179388000792266395655937654553313279nat, 8034690221294951377709810461705813012611014968913964176506879nat, 1nat, 599335800518816534151774831849987483867405294689611747395907454611903378198nat, 158829625516333215084501401124364648808039588436849475045789716985503491547nat, 2156875401499064099624976593685724218005985438413652940395441091012802374591nat, 1nat, 2052186560081796257383332386420512735752791488826513614395226244371051435903nat);
    lemma_pow_mod_bit(2, 32138760885179805510839241846823252050444059875655856706027519nat, 2261564242916331941866620800950935700259179388000792266395655937654553313279nat, 16069380442589902755419620923411626025222029937827928353013759nat, 1nat, 2052186560081796257383332386420512735752791488826513614395226244371051435903nat, 1862193254324529950390559379754093764586611491942617304813798301447043219748nat, 1168901038034770846476245123484081635619586239233869381301641229712633991717nat, 1nat, 76237833153209751085869446017227570979993090466946496207626521770714670155nat);
    lemma_pow_mod_bit(2, 64277521770359611021678483693646504100888119751311713412055039nat, 2261564242916331941866620800950935700259179388000792266395655937654553313279nat, 32138760885179805510839241846823252050444059875655856706027519nat, 1nat, 76237833153209751085869446017227570979993090466946496207626521770714670155nat, 2569994295807264534173770072700926674784420162646006364738697549597646198nat, 2164511642473097822872065299658173980324646702405704666271069023889950460783nat, 1nat, 2067459042029863703877509798365412260390114016810617066146482110125347608287nat);
    lemma_pow_mod_bit(2, 128555043540719222043356967387293008201776239502623426824110079nat, 2261564242916331941866620800950935700259179388000792266395655937654553313279nat, 64277521770359611021678483693646504100888119751311713412055039nat, 1nat, 2067459042029863703877509798365412260390114016810617066146482110125347608287nat, 1890013473576649350305150308101244314762819805417894349746994122815234339949nat, 1608568011842613021053059661105640810176650610228022649628502479834609191598nat, 1nat, 955571780768894100239498521260345920094121832455253032861349022014665069917nat);
    lemma_pow_mod_bit(2, 257110087081438444086713934774586016403552479005246853648220159nat, 2261564242916331941866620800950935700259179388000792266395655937654553313279nat, 128555043540719222043356967387293008201776239502623426824110079nat, 1nat, 955571780768894100239498521260345920094121832455253032861349022014665069917nat, 403754804251924489336600884305770181994287602372549475746853918459126771004nat, 2066374966404519970629448874627981101276210041151108714156629577913593024773nat, 1nat, 1871185689892707999392276948305026502293240694301425161917603218172632736267nat);
}

/// Square-and-multiply for `2^2261564242916331941866620800950935700259179388000792266395655937654553313278 mod 2261564242916331941866620800950935700259179388000792266395655937654553313279`, up to the exponent `16849966666969149871666884429387269171023215264087857800689756405759`.
proof fn pow_p_full_13()
    requires
        pow_mod(2, 257110087081438444086713934774586016403552479005246853648220159nat, 2261564242916331941866620800950935700259179388000792266395655937654553313279nat) == 1871185689892707999392276948305026502293240694301425161917603218172632736267nat,
    ensures
        pow_mod(2, 16849966666969149871666884429387269171023215264087857800689756405759nat, 2261564242916331941866620800950935700259179388000792266395655937654553313279nat) == 1649938439390238187713967490276709429412415970470543624939335526515933677406nat,
{
    lemma_pow_mod_bit(2, 514220174162876888173427869549172032807104958010493707296440319nat, 2261564242916331941866620800950935700259179388000792266395655937654553313279nat, 257110087081438444086713934774586016403552479005246853648220159nat, 1nat, 1871185689892707999392276948305026502293240694301425161917603218172632736267nat, 1548192096256442189400784768029287550118972789962672379575962949482458151839nat, 2090671308890187965216930021503835867072853281558060711454976324351260125208nat, 1nat, 1919778374864043988567239242056736033886527175115329156514296711047966937137nat);
    lemma_pow_mod_bit(2, 1028440348325753776346855739098344065614209916020987414592880639nat, 2261564242916331941866620800950935700259179388000792266395655937654553313279nat, 514220174162876888173427869549172032807104958010493707296440319nat, 1nat, 1919778374864043988567239242056736033886527175115329156514296711047966937137nat, 1629645949762205855533718081954172077910088404264502039890073548431489528738nat, 1778652241744732043076289862017146192020202770933653583556777793652722244867nat, 1nat, 1295740240573132144285958923083356683781226153866514900717899649650891176455nat);
    lemma_pow_mod_bit(2, 2056880696651507552693711478196688131228419832041974829185761279nat, 2261564242916331941866620800950935700259179388000792266395655937654553313279nat, 1028440348325753776346855739098344065614209916020987414592880639nat, 1nat, 1295740240573132144285958923083356683781226153866514900717899649650891176455nat, 742381197571238730405415510814080882917227536082715034643967405302540753713nat, 472642443651735675061182266221657546657041485032805332680484356203874912098nat, 0nat, 945284887303471350122364532443315093314082970065610665360968712407749824196nat);
    lemma_pow_mod_bit(2, 4113761393303015105387422956393376262456839664083949658371522559nat, 2261564242916331941866620800950935700259179388000792266395655937654553313279nat, 2056880696651507552693711478196688131228419832041974829185761279nat, 1nat, 945284887303471350122364532443315093314082970065610665360968712407749824196nat, 395108616066580825210927308548645628939423893810863274243585072414564844718nat, 1532440699103112536932118240936206177344423615514213830354675702707864636094nat, 1nat, 803317155289893131997615680921476654429667843027635394313695467761175958909nat);
    lemma_pow_mod_bit(2, 8227522786606030210774845912786752524913679328167899316743045119nat, 2261564242916331941866620800950935700259179388000792266395655937654553313279nat, 4113761393303015105387422956393376262456839664083949658371522559nat, 1nat, 803317155289893131997615680921476654429667843027635394313695467761175958909nat, 285341640859556275793168959734195828149742165918934613672815158072700295153nat, 577912848538748118662167228263017435904333891062982604895095915278282233594nat, 0nat, 1155825697077496237324334456526034871808667782125965209790191830556564467188nat);
    lemma_pow_mod_bit(2, 16455045573212060421549691825573505049827358656335798633486090239nat, 2261564242916331941866620800950935700259179388000792266395655937654553313279nat, 8227522786606030210774845912786752524913679328167899316743045119nat, 1nat, 1155825697077496237324334456526034871808667782125965209790191830556564467188nat, 590711957977354621841131488193840541695087790247513304303179892375464720530nat, 661119399946933984729290783946296732068697181025576892614004895977055709474nat, 0nat, 1322238799893867969458581567892593464137394362051153785228009791954111418948nat);
    lemma_pow_mod_bit(2, 32910091146424120843099383651147010099654717312671597266972180479nat, 2261564242916331941866620800950935700259179388000792266395655937654553313279nat, 16455045573212060421549691825573505049827358656335798633486090239nat, 1nat, 1322238799893867969458581567892593464137394362051153785228009791954111418948nat, 773055839302751261046135107605197264625434841879768412406540842438142531545nat, 476560669033249572773586254214932541648381628342331543311320208737448540649nat, 0nat, 953121338066499145547172508429865083296763256684663086622640417474897081298nat);
    lemma_pow_mod_bit(2, 65820182292848241686198767302294020199309434625343194533944360959nat, 2261564242916331941866620800950935700259179388000792266395655937654553313279nat, 32910091146424120843099383651147010099654717312671597266972180479nat, 1nat, 953121338066499145547172508429865083296763256684663086622640417474897081298nat, 401686703317444562024120726180866317092023616455943398932351525720220811782nat, 898061128215443910869308144410527216749980774336848457057311503960081111626nat, 0nat, 1796122256430887821738616288821054433499961548673696914114623007920162223252nat);
    lemma_pow_mod_bit(2, 131640364585696483372397534604588040398618869250686389067888721919nat, 2261564242916331941866620800950935700259179388000792266395655937654553313279nat, 65820182292848241686198767302294020199309434625343194533944360959nat, 1nat, 1796122256430887821738616288821054433499961548673696914114623007920162223252nat, 1426470713865869157061630923145838559654899841722049400062240792518101680765nat, 890497494032279566626112518758383285800085454729487398412434094913996077069nat, 0nat, 1780994988064559133252225037516766571600170909458974796824868189827992154138nat);
    lemma_pow_mod_bit(2, 263280729171392966744795069209176080797237738501372778135777443839nat, 2261564242916331941866620800950935700259179388000792266395655937654553313279nat, 131640364585696483372397534604588040398618869250686389067888721919nat, 1nat, 1780994988064559133252225037516766571600170909458974796824868189827992154138nat, 1402543906257023031023917322224826835062032815033065997204327152144434706391nat, 1793093436448223511406275603846829523000541880978777071159779082376944056955nat, 1nat, 1324622629980115080945930406742723345741904373956761875923902227099334800631nat);
    lemma_pow_mod_bit(2, 526561458342785933489590138418352161594475477002745556271554887679nat, 2261564242916331941866620800950935700259179388000792266395655937654553313279nat, 263280729171392966744795069209176080797237738501372778135777443839nat, 1nat, 1324622629980115080945930406742723345741904373956761875923902227099334800631nat, 775845796709631822593578754154779886834557325035860569645092619090711811872nat, 1205157585336876490845409621552515498432826943312343479194024311041590549873nat, 1nat, 148750927757421039824198442154095296606474498623894691992392684428627786467nat);
    lemma_pow_mod_bit(2, 1053122916685571866979180276836704323188950954005491112543109775359nat, 2261564242916331941866620800950935700259179388000792266395655937654553313279nat, 526561458342785933489590138418352161594475477002745556271554887679nat, 1nat, 148750927757421039824198442154095296606474498623894691992392684428627786467nat, 9783864675964497966494960642606546151308405010070745661545025183186242994nat, 453234290574434424178075597622610854775844377655463482456989535745447424763nat, 0nat, 906468581148868848356151195245221709551688755310926964913979071490894849526nat);
    lemma_pow_mod_bit(2, 2106245833371143733958360553673408646377901908010982225086219550719nat, 2261564242916331941866620800950935700259179388000792266395655937654553313279nat, 1053122916685571866979180276836704323188950954005491112543109775359nat, 1nat, 906468581148868848356151195245221709551688755310926964913979071490894849526nat, 363326087765901336238866999615992719953329017416326783830149663572751066409nat, 2110989843302177431907425676842270289609468410764668518100790571062671879565nat, 1nat, 1960415443688022921948230552733604878959757433528544769805925204470790445851nat);
    lemma_pow_mod_bit(2, 4212491666742287467916721107346817292755803816021964450172439101439nat, 2261564242916331941866620800950935700259179388000792266395655937654553313279nat, 2106245833371143733958360553673408646377901908010982225086219550719nat, 1nat, 1960415443688022921948230552733604878959757433528544769805925204470790445851nat, 1699367472707557548972282190339913372809753069116659080452761947548956701131nat, 184530275831608870647445374547015306848850028090669267842714580577546495652nat, 0nat, 369060551663217741294890749094030613697700056181338535685429161155092991304nat);
    lemma_pow_mod_bit(2, 8424983333484574935833442214693634585511607632043928900344878202879nat, 2261564242916331941866620800950935700259179388000792266395655937654553313279nat, 4212491666742287467916721107346817292755803816021964450172439101439nat, 1nat, 369060551663217741294890749094030613697700056181338535685429161155092991304nat, 60226319557616754695170333172385240636365106454349269414344919620525762077nat, 1665869275570210531542377759660921164442215665325653778865293747145820899933nat, 1nat, 1070174308224089121218134718370906628625251942650515291334931556637088486587nat);
    lemma_pow_mod_bit(2, 16849966666969149871666884429387269171023215264087857800689756405759nat, 2261564242916331941866620800950935700259179388000792266395655937654553313279nat, 8424983333484574935833442214693634585511607632043928900344878202879nat, 1nat, 1070174308224089121218134718370906628625251942650515291334931556637088486587nat, 506407480384486179293600588152962114619553575060088140780788555756740543254nat, 824969219695119093856983745138354714706207985235271812469667763257966838703nat, 0nat, 1649938439390238187713967490276709429412415970470543624939335526515933677406nat);
}

/// Square-and-multiply for `2^2261564242916331941866620800950935700259179388000792266395655937654553313278 mod 2261564242916331941866620800950935700259179388000792266395655937654553313279`, up to the exponent `1104279415486490205989560937964324072392177435547261848826003875807887359`.
proof fn pow_p_full_14()
    requires
        pow_mod(2, 16849966666969149871666884429387269171023215264087857800689756405759nat, 2261564242916331941866620800950935700259179388000792266395655937654553313279nat) == 1649938439390238187713967490276709429412415970470543624939335526515933677406nat,
    ensures
        pow_mod(2, 1104279415486490205989560937964324072392177435547261848826003875807887359nat, 2261564242916331941866620800950935700259179388000792266395655937654553313279nat) == 1630100163253031864224975269651000767287868469345011993984683026499163284534nat,
{
    lemma_pow_mod_bit(2, 33699933333938299743333768858774538342046430528175715601379512811519nat, 2261564242916331941866620800950935700259179388000792266395655937654553313279nat, 16849966666969149871666884429387269171023215264087857800689756405759nat, 1nat, 1649938439390238187713967490276709429412415970470543624939335526515933677406nat, 1203722981694757834085172342323629432968078185347415272613079649684654711918nat, 45576540980593672584889652190181411915819162274105802345484218672325929714nat, 0nat, 91153081961187345169779304380362823831638324548211604690968437344651859428nat);
    lemma_pow_mod_bit(2, 67399866667876599486667537717549076684092861056351431202759025623039nat, 2261564242916331941866620800950935700259179388000792266395655937654553313279nat, 33699933333938299743333768858774538342046430528175715601379512811519nat, 1nat, 91153081961187345169779304380362823831638324548211604690968437344651859428nat, 3673954598923295070736102894079350264981936428705402137183413660694999277nat, 1185221790171299536717225502237464242254429841145324590315352659551012987901nat, 1nat, 108879337426267131567830203523992784249680294289856914235049381447472662523nat);
    lemma_pow_mod_bit(2, 134799733335753198973335075435098153368185722112702862405518051246079nat, 2261564242916331941866620800950935700259179388000792266395655937654553313279nat, 67399866667876599486667537717549076684092861056351431202759025623039nat, 1nat, 108879337426267131567830203523992784249680294289856914235049381447472662523nat, 5241818867411898379320625055172238654623956598160318688435760581047421916nat, 381428135499747014035081996609990509120649724088119319455592712083810302965nat, 0nat, 762856270999494028070163993219981018241299448176238638911185424167620605930nat);
    lemma_pow_mod_bit(2, 269599466671506397946670150870196306736371444225405724811036102492159nat, 2261564242916331941866620800950935700259179388000792266395655937654553313279nat, 134799733335753198973335075435098153368185722112702862405518051246079nat, 1nat, 762856270999494028070163993219981018241299448176238638911185424167620605930nat, 257321759497230910726486602537699789424705425296856661526738817675526509863nat, 1481251550768096159485750204279735162564539137387265931660623359714628794123nat, 1nat, 700938858619860377104879607608534624869898886773739596925590781774704274967nat);
    lemma_pow_mod_bit(2, 539198933343012795893340301740392613472742888450811449622072204984319nat, 2261564242916331941866620800950935700259179388000792266395655937654553313279nat, 269599466671506397946670150870196306736371444225405724811036102492159nat, 1nat, 700938858619860377104879607608534624869898886773739596925590781774704274967nat, 217245778032708817666156423661774885701350654390900446268071644589449911293nat, 1685306731686961281917496306013818048530876031590967584281522440299353891342nat, 1nat, 1109049220457590621968371811076700396802572675181142902167388942944154469405nat);
    lemma_pow_mod_bit(2, 1078397866686025591786680603480785226945485776901622899244144409968639nat, 2261564242916331941866620800950935700259179388000792266395655937654553313279nat, 539198933343012795893340301740392613472742888450811449622072204984319nat, 1nat, 1109049220457590621968371811076700396802572675181142902167388942944154469405nat, 543867005878856982450426686117935408329285518242552006729801189594180810686nat, 1313108737789243613407563446168315759824031934324339714760651283113532154631nat, 1nat, 364653232662155284948506091385695819388884480647887163125646628572510995983nat);
    lemma_pow_mod_bit(2, 2156795733372051183573361206961570453890971553803245798488288819937279nat, 2261564242916331941866620800950935700259179388000792266395655937654553313279nat, 1078397866686025591786680603480785226945485776901622899244144409968639nat, 1nat, 364653232662155284948506091385695819388884480647887163125646628572510995983nat, 58796463778313875593317872733635763253558330037518344225215573961387939479nat, 70561780976742705040108589042292278434561535797162518618639346996463094648nat, 0nat, 141123561953485410080217178084584556869123071594325037237278693992926189296nat);
    lemma_pow_mod_bit(2, 4313591466744102367146722413923140907781943107606491596976577639874559nat, 2261564242916331941866620800950935700259179388000792266395655937654553313279nat, 2156795733372051183573361206961570453890971553803245798488288819937279nat, 1nat, 141123561953485410080217178084584556869123071594325037237278693992926189296nat, 8806232146983955970016369430522960122551645540430685437733127509800669993nat, 1325022419367176946782958977745946684673515589864544807326148116103801238569nat, 1nat, 388480595818021951699297154540957669087851791728297348256640294553049163859nat);
    lemma_pow_mod_bit(2, 8627182933488204734293444827846281815563886215212983193953155279749119nat, 2261564242916331941866620800950935700259179388000792266395655937654553313279nat, 4313591466744102367146722413923140907781943107606491596976577639874559nat, 1nat, 388480595818021951699297154540957669087851791728297348256640294553049163859nat, 66731322711626642434283490033929541829511281917674251804912178207909716087nat, 1696070614510777230549501049087543040211312375110633342909083028496974752608nat, 1nat, 1130576986105222519232381297224150380163445362220474419422510119339396191937nat);
    lemma_pow_mod_bit(2, 17254365866976409468586889655692563631127772430425966387906310559498239nat, 2261564242916331941866620800950935700259179388000792266395655937654553313279nat, 8627182933488204734293444827846281815563886215212983193953155279749119nat, 1nat, 1130576986105222519232381297224150380163445362220474419422510119339396191937nat, 565185943982956987233615359443102308116850962315661333498649210278384561783nat, 244456921386883025324985330534680947161990720597852632826543565551813995512nat, 0nat, 488913842773766050649970661069361894323981441195705265653087131103627991024nat);
    lemma_pow_mod_bit(2, 34508731733952818937173779311385127262255544860851932775812621118996479nat, 2261564242916331941866620800950935700259179388000792266395655937654553313279nat, 17254365866976409468586889655692563631127772430425966387906310559498239nat, 1nat, 488913842773766050649970661069361894323981441195705265653087131103627991024nat, 105695315268854890383028487055808627850197954654934330329229590852847736288nat, 1471624089012216430640461759331244585123515541898122009476005835864984000224nat, 1nat, 681683935108100919414302717711553469987851695795451752556355734075414687169nat);
    lemma_pow_mod_bit(2, 69017463467905637874347558622770254524511089721703865551625242237992959nat, 2261564242916331941866620800950935700259179388000792266395655937654553313279nat, 34508731733952818937173779311385127262255544860851932775812621118996479nat, 1nat, 681683935108100919414302717711553469987851695795451752556355734075414687169nat, 205474148629638184578892158437659065704433573989595770621971779430834606463nat, 1456563601491269287714020280395968060549374051734356557633435825187416112384nat, 1nat, 651562960066206633561419759841000420839568715467920848871215712720278911489nat);
    lemma_pow_mod_bit(2, 138034926935811275748695117245540509049022179443407731103250484475985919nat, 2261564242916331941866620800950935700259179388000792266395655937654553313279nat, 69017463467905637874347558622770254524511089721703865551625242237992959nat, 1nat, 651562960066206633561419759841000420839568715467920848871215712720278911489nat, 187717104327220788072784734187527854667990480595774030817882501901015951925nat, 139092561903822707950858441772604035126681874454593662689104518037768085046nat, 0nat, 278185123807645415901716883545208070253363748909187325378209036075536170092nat);
    lemma_pow_mod_bit(2, 276069853871622551497390234491081018098044358886815462206500968951971839nat, 2261564242916331941866620800950935700259179388000792266395655937654553313279nat, 138034926935811275748695117245540509049022179443407731103250484475985919nat, 1nat, 278185123807645415901716883545208070253363748909187325378209036075536170092nat, 34218335097163980951939121133915080398738211501709018338805371618777751561nat, 222426210636506827537598926706693776158307319368614066545898982585091009945nat, 0nat, 444852421273013655075197853413387552316614638737228133091797965170182019890nat);
    lemma_pow_mod_bit(2, 552139707743245102994780468982162036196088717773630924413001937903943679nat, 2261564242916331941866620800950935700259179388000792266395655937654553313279nat, 276069853871622551497390234491081018098044358886815462206500968951971839nat, 1nat, 444852421273013655075197853413387552316614638737228133091797965170182019890nat, 87503009181501291885300347863238674398176071926367069886942634490267425245nat, 40521944735194520841460114747994302338131534251401949047433555961157283745nat, 0nat, 81043889470389041682920229495988604676263068502803898094867111922314567490nat);
    lemma_pow_mod_bit(2, 1104279415486490205989560937964324072392177435547261848826003875807887359nat, 2261564242916331941866620800950935700259179388000792266395655937654553313279nat, 552139707743245102994780468982162036196088717773630924413001937903943679nat, 1nat, 81043889470389041682920229495988604676263068502803898094867111922314567490nat, 2904234111881307902207401173525878295989401773925284062213533477580776727nat, 815050081626515932112487634825500383643934234672505996992341513249581642267nat, 0nat, 1630100163253031864224975269651000767287868469345011993984683026499163284534nat);
}

/// Square-and-multiply for `2^2261564242916331941866620800950935700259179388000792266395655937654553313278 mod 2261564242916331941866620800950935700259179388000792266395655937654553313279`, up to the exponent `2261564242916331941866620800950935700259179388000792266395655937654553313278`.
proof fn pow_p_full_15()
    requires
        pow_mod(2, 1104279415486490205989560937964324072392177435547261848826003875807887359nat, 2261564242916331941866620800950935700259179388000792266395655937654553313279nat) == 1630100163253031864224975269651000767287868469345011993984683026499163284534nat,
    ensures
        pow_mod(2, 2261564242916331941866620800950935700259179388000792266395655937654553313278nat, 2261564242916331941866620800950935700259179388000792266395655937654553313279nat) == 1nat,
{
    lemma_pow_mod_bit(2, 2208558830972980411979121875928648144784354871094523697652007751615774719nat, 2261564242916331941866620800950935700259179388000792266395655937654553313279nat, 1104279415486490205989560937964324072392177435547261848826003875807887359nat, 1nat, 1630100163253031864224975269651000767287868469345011993984683026499163284534nat, 1174950722961119517793527522481991675224062285283850291584986170807120430576nat, 713083808343618271965691875630026300950363373607779778653791204077145178452nat, 0nat, 1426167616687236543931383751260052601900726747215559557307582408154290356904nat);
    lemma_pow_mod_bit(2, 4417117661945960823958243751857296289568709742189047395304015503231549439nat, 2261564242916331941866620800950935700259179388000792266395655937654553313279nat, 2208558830972980411979121875928648144784354871094523697652007751615774719nat, 1nat, 1426167616687236543931383751260052601900726747215559557307582408154290356904nat, 899357193702588944501222696533355895254590162580030556613962272550611320505nat, 1055772360906062624959488718895294999379386719344416977708841659090558979321nat, 0nat, 2111544721812125249918977437790589998758773438688833955417683318181117958642nat);
    lemma_pow_mod_bit(2, 8834235323891921647916487503714592579137419484378094790608031006463098879nat, 2261564242916331941866620800950935700259179388000792266395655937654553313279nat, 4417117661945960823958243751857296289568709742189047395304015503231549439nat, 1nat, 2111544721812125249918977437790589998758773438688833955417683318181117958642nat, 1971476656556598659348086424814472219117789576253701301874816083782458185895nat, 818609396745479940986854126068880817289289186497674180584710402797268484459nat, 0nat, 1637218793490959881973708252137761634578578372995348361169420805594536968918nat);
    lemma_pow_mod_bit(2, 17668470647783843295832975007429185158274838968756189581216062012926197759nat, 2261564242916331941866620800950935700259179388000792266395655937654553313279nat, 8834235323891921647916487503714592579137419484378094790608031006463098879nat, 1nat, 1637218793490959881973708252137761634578578372995348361169420805594536968918nat, 1185235124828227424941528337635418761277226077251867984966189226930665906808nat, 1598682041073183316960365327155866592453860581774456304152381383221455187292nat, 1nat, 935799839230034692054109853360797484648541775548120341909106828788357061305nat);
    lemma_pow_mod_bit(2, 35336941295567686591665950014858370316549677937512379162432124025852395519nat, 2261564242916331941866620800950935700259179388000792266395655937654553313279nat, 17668470647783843295832975007429185158274838968756189581216062012926197759nat, 1nat, 935799839230034692054109853360797484648541775548120341909106828788357061305nat, 387219307099451989402089640983898827160484356672887538904219670477252068646nat, 325380103265374169071872955999936215023119854296874714034665155959476952791nat, 0nat, 650760206530748338143745911999872430046239708593749428069330311918953905582nat);
    lemma_pow_mod_bit(2, 70673882591135373183331900029716740633099355875024758324864248051704791039nat, 2261564242916331941866620800950935700259179388000792266395655937654553313279nat, 35336941295567686591665950014858370316549677937512379162432124025852395519nat, 1nat, 650760206530748338143745911999872430046239708593749428069330311918953905582nat, 187254838207843685252229058567839817126865240601659486670212044412420007098nat, 1673464933869875814252631821790535807440884638381670896258017377866773104382nat, 1nat, 1085365624823419686638642842630135914622589888762549526120378818078992895485nat);
    lemma_pow_mod_bit(2, 141347765182270746366663800059433481266198711750049516649728496103409582079nat, 2261564242916331941866620800950935700259179388000792266395655937654553313279nat, 70673882591135373183331900029716740633099355875024758324864248051704791039nat, 1nat, 1085365624823419686638642842630135914622589888762549526120378818078992895485nat, 520886613430558113106980634919516697896567257553671428351371949068814851735nat, 115970256857745961226464595676461879945698031033981982983250325156741696160nat, 0nat, 231940513715491922452929191352923759891396062067963965966500650313483392320nat);
    lemma_pow_mod_bit(2, 282695530364541492733327600118866962532397423500099033299456992206819164159nat, 2261564242916331941866620800950935700259179388000792266395655937654553313279nat, 141347765182270746366663800059433481266198711750049516649728496103409582079nat, 1nat, 231940513715491922452929191352923759891396062067963965966500650313483392320nat, 23787253477811786353451337334256226834432900722038979588853096706740666772nat, 451972619102791335249018116663525141223852967391876876564921047832773317012nat, 0nat, 903945238205582670498036233327050282447705934783753753129842095665546634024nat);
    lemma_pow_mod_bit(2, 565391060729082985466655200237733925064794847000198066598913984413638328319nat, 2261564242916331941866620800950935700259179388000792266395655937654553313279nat, 282695530364541492733327600118866962532397423500099033299456992206819164159nat, 1nat, 903945238205582670498036233327050282447705934783753753129842095665546634024nat, 361306116434198229061791939720791189329696571136346922588189675108956685316nat, 1269505916247555829441517245453231857348194495772669756518927826191027321412nat, 1nat, 277447589578779717016413689955528014437209603544547246642199714727501329545nat);
    lemma_pow_mod_bit(2, 1130782121458165970933310400475467850129589694000396133197827968827276656639nat, 2261564242916331941866620800950935700259179388000792266395655937654553313279nat, 565391060729082985466655200237733925064794847000198066598913984413638328319nat, 1nat, 277447589578779717016413689955528014437209603544547246642199714727501329545nat, 34037133901538615867462673311492129549759277048403429441742680959722032815nat, 1130782121458165970933310400475467850129589694000396133197827968827276656640nat, 1nat, 1nat);
    lemma_pow_mod_bit(2, 2261564242916331941866620800950935700259179388000792266395655937654553313278nat, 2261564242916331941866620800950935700259179388000792266395655937654553313279nat, 1130782121458165970933310400475467850129589694000396133197827968827276656639nat, 0nat, 1nat, 0nat, 1nat, 0nat, 1nat);
}

/// Square-and-multiply for `2^51235067740115583694242 mod 2261564242916331941866620800950935700259179388000792266395655937654553313279`, up to the exponent `44439`.
proof fn pow_p_part0_0()
    ensures
        pow_mod(2, 44439nat, 2261564242916331941866620800950935700259179388000792266395655937654553313279nat) == 629496288389100253458523312424197806892899648531914739188226558043452256002nat,
{
    lemma_pow_mod_zero(2, 2261564242916331941866620800950935700259179388000792266395655937654553313279nat);
    lemma_pow_mod_bit(2, 1nat, 2261564242916331941866620800950935700259179388000792266395655937654553313279nat, 0nat, 1nat, 1nat, 0nat, 1nat, 0nat, 2nat);
    lemma_pow_mod_bit(2, 2nat, 2261564242916331941866620800950935700259179388000792266395655937654553313279nat, 1nat, 0nat, 2nat, 0nat, 4nat, 0nat, 4nat);
    lemma_pow_mod_bit(2, 5nat, 2261564242916331941866620800950935700259179388000792266395655937654553313279nat, 2nat, 1nat, 4nat, 0nat, 16nat, 0nat, 32nat);
    lemma_pow_mod_bit(2, 10nat, 2261564242916331941866620800950935700259179388000792266395655937654553313279nat, 5nat, 0nat, 32nat, 0nat, 1024nat, 0nat, 1024nat);
    lemma_pow_mod_bit(2, 21nat, 2261564242916331941866620800950935700259179388000792266395655937654553313279nat, 10nat, 1nat, 1024nat, 0nat, 1048576nat, 0nat, 2097152nat);
    lemma_pow_mod_bit(2, 43nat, 2261564242916331941866620800950935700259179388000792266395655937654553313279nat, 21nat, 1nat, 2097152nat, 0nat, 4398046511104nat, 0nat, 8796093022208nat);
    lemma_pow_mod_bit(2, 86nat, 2261564242916331941866620800950935700259179388000792266395655937654553313279nat, 43nat, 0nat, 8796093022208nat, 0nat, 77371252455336267181195264nat, 0nat, 77371252455336267181195264nat);
    lemma_pow_mod_bit(2, 173nat, 2261564242916331941866620800950935700259179388000792266395655937654553313279nat, 86nat, 1nat, 77371252455336267181195264nat, 0nat, 5986310706507378352962293074805895248510699696029696nat, 0nat, 11972621413014756705924586149611790497021399392059392nat);
    lemma_pow_mod_bit(2, 347nat, 2261564242916331941866620800950935700259179388000792266395655937654553313279nat, 173nat, 1nat, 11972621413014756705924586149611790497021399392059392nat, 63382530011411470074835160268nat, 1809251394333065553493296640760748560207343510464016343127936220198477810892nat, 1nat, 1356938545749799165119972480570561420155507632927240419860216502742402308505nat);
    lemma_pow_mod_bit(2, 694nat, 2261564242916331941866620800950935700259179388000792266395655937654553313279nat, 347nat, 0nat, 1356938545749799165119972480570561420155507632927240419860216502742402308505nat, 814163127449879499071983488342336852093304579832403287929823665735243577425nat, 1266475976033145903514688091122426747564761380692069694403597262914478208450nat, 0nat, 1266475976033145903514688091122426747564761380692069694403597262914478208450nat);
    lemma_pow_mod_bit(2, 1388nat, 2261564242916331941866620800950935700259179388000792266395655937654553313279nat, 694nat, 0nat, 1266475976033145903514688091122426747564761380692069694403597262914478208450nat, 709226546578561714967078378878904635851069506774860087653228788375358585039nat, 984956459074920887321750691230151630356693223538895532523513629926921969619nat, 0nat, 984956459074920887321750691230151630356693223538895532523513629926921969619nat);
    lemma_pow_mod_bit(2, 2777nat, 2261564242916331941866620800950935700259179388000792266395655937654553313279nat, 1388nat, 1nat, 984956459074920887321750691230151630356693223538895532523513629926921969619nat, 428968237056309544846368861044555687780540242899631574205017089277308564609nat, 214145241399792842845657807677551368131553531328721531547414234901769862250nat, 0nat, 428290482799585685691315615355102736263107062657443063094828469803539724500nat);
    lemma_pow_mod_bit(2, 5554nat, 2261564242916331941866620800950935700259179388000792266395655937654553313279nat, 2777nat, 0nat, 428290482799585685691315615355102736263107062657443063094828469803539724500nat, 81108789295395849158418352913436775615453913935782330286737657959962295166nat, 721765618655558976005804374561896189087557966989111691581421080717234940686nat, 0nat, 721765618655558976005804374561896189087557966989111691581421080717234940686nat);
    lemma_pow_mod_bit(2, 11109nat, 2261564242916331941866620800950935700259179388000792266395655937654553313279nat, 5554nat, 1nat, 721765618655558976005804374561896189087557966989111691581421080717234940686nat, 230347472951496655358153147896174247912736474037522482769264867188016280782nat, 91677547339571553677374982672501799912920690584073380102830737597065046418nat, 0nat, 183355094679143107354749965345003599825841381168146760205661475194130092836nat);
    lemma_pow_mod_bit(2, 22219nat, 2261564242916331941866620800950935700259179388000792266395655937654553313279nat, 11109nat, 1nat, 183355094679143107354749965345003599825841381168146760205661475194130092836nat, 14865414878263660907381646642974087045294499959831842575216405873279299392nat, 2139089120037054189069002514725411412344091062498849256325588010516568296528nat, 1nat, 2016613997157776436271384228499887124429002736996906246255520083378583279777nat);
    lemma_pow_mod_bit(2, 44439nat, 2261564242916331941866620800950935700259179388000792266395655937654553313279nat, 22219nat, 1nat, 2016613997157776436271384228499887124429002736996906246255520083378583279777nat, 1798194336628055618263640303588075975035333985216441096319900120872969159232nat, 314748144194550126729261656212098903446449824265957369594113279021726128001nat, 0nat, 629496288389100253458523312424197806892899648531914739188226558043452256002nat);
}

/// Square-and-multiply for `2^51235067740115583694242 mod 2261564242916331941866620800950935700259179388000792266395655937654553313279`, up to the exponent `2912376415`.
proof fn pow_p_part0_1()
    requires
        pow_mod(2, 44439nat, 2261564242916331941866620800950935700259179388000792266395655937654553313279nat) == 629496288389100253458523312424197806892899648531914739188226558043452256002nat,
    ensures
        pow_mod(2, 2912376415nat, 2261564242916331941866620800950935700259179388000792266395655937654553313279nat) == 216489795225996288522160100164310648979000004939102593779991507742361306160nat,
{
    lemma_pow_mod_bit(2, 88878nat, 2261564242916331941866620800950935700259179388000792266395655937654553313279nat, 44439nat, 0nat, 629496288389100253458523312424197806892899648531914739188226558043452256002nat, 175217475398647510581920781222519169285200578790125613103949562807233315660nat, 1841457229704136812061987702207748248710619076322748905618552211217468374864nat, 0nat, 1841457229704136812061987702207748248710619076322748905618552211217468374864nat);
    lemma_pow_mod_bit(2, 177757nat, 2261564242916331941866620800950935700259179388000792266395655937654553313279nat, 88878nat, 1nat, 1841457229704136812061987702207748248710619076322748905618552211217468374864nat, 1499389079682705727909927213034127584164683386245398768977046548680128713067nat, 1304810875523874172031739171553288650234501484837782067182500408802075101803nat, 1nat, 348057508131416402196857542155641600209823581674771867969344879949596890327nat);
    lemma_pow_mod_bit(2, 355514nat, 2261564242916331941866620800950935700259179388000792266395655937654553313279nat, 177757nat, 0nat, 348057508131416402196857542155641600209823581674771867969344879949596890327nat, 53566476984281183669881426770243291502202972393460029581613055160728596447nat, 244180473146823448123495262236658436486350682444853700629076457641308847216nat, 0nat, 244180473146823448123495262236658436486350682444853700629076457641308847216nat);
    lemma_pow_mod_bit(2, 711029nat, 2261564242916331941866620800950935700259179388000792266395655937654553313279nat, 355514nat, 1nat, 244180473146823448123495262236658436486350682444853700629076457641308847216nat, 26364098943004202779627442466759547060597904569541129022747477866254410811nat, 1667917901179702261833821255066733019381421714985016397161548212626783491387nat, 1nat, 1074271559443072581801021709182530338503664041969240527927440487599013669495nat);
    lemma_pow_mod_bit(2, 1422058nat, 2261564242916331941866620800950935700259179388000792266395655937654553313279nat, 711029nat, 0nat, 1074271559443072581801021709182530338503664041969240527927440487599013669495nat, 510292549523186909662299094642663081809358813192082057704358589485980894628nat, 1491597902557999172588581340525630448558244401598026137305649835815121389813nat, 0nat, 1491597902557999172588581340525630448558244401598026137305649835815121389813nat);
    lemma_pow_mod_bit(2, 2844117nat, 2261564242916331941866620800950935700259179388000792266395655937654553313279nat, 1422058nat, 1nat, 1491597902557999172588581340525630448558244401598026137305649835815121389813nat, 983772320368142959847664111053274076454914908816687840646322322241298953308nat, 1970160968447030967362484226231226010950398219028908803635409028170582798037nat, 1nat, 1678757693977729992858347651511516321641617050057025340875162118686612282795nat);
    lemma_pow_mod_bit(2, 5688235nat, 2261564242916331941866620800950935700259179388000792266395655937654553313279nat, 2844117nat, 1nat, 1678757693977729992858347651511516321641617050057025340875162118686612282795nat, 1246140764701543754587452888937591826863066910490520314119212926322144006438nat, 2080975411222685232275385807931233481578726751870969642805152977996646121823nat, 1nat, 1900386579529038522684150814911531262898274115741147019214650018338738930367nat);
    lemma_pow_mod_bit(2, 11376470nat, 2261564242916331941866620800950935700259179388000792266395655937654553313279nat, 5688235nat, 0nat, 1900386579529038522684150814911531262898274115741147019214650018338738930367nat, 1596889923850678486707539591127735368360132548656221315985392177935846383460nat, 103954425136047520667433797265621660570705965261807133852884741266730789349nat, 0nat, 103954425136047520667433797265621660570705965261807133852884741266730789349nat);
    lemma_pow_mod_bit(2, 22752940nat, 2261564242916331941866620800950935700259179388000792266395655937654553313279nat, 11376470nat, 0nat, 103954425136047520667433797265621660570705965261807133852884741266730789349nat, 4778339832359077053510516524269370962942095055171102892254923399377761742nat, 2236801179792776210181621442564216287071223161585173516883339235563465071783nat, 0nat, 2236801179792776210181621442564216287071223161585173516883339235563465071783nat);
    lemma_pow_mod_bit(2, 45505881nat, 2261564242916331941866620800950935700259179388000792266395655937654553313279nat, 22752940nat, 1nat, 2236801179792776210181621442564216287071223161585173516883339235563465071783nat, 2212309260545491912733443751817432716416254265156590152479153933249914753867nat, 1294893961504868086256324536325634941718850756036141568754734262470715099196nat, 1nat, 328223680093404230646028271700334183178522124071490871113812587286876885113nat);
    lemma_pow_mod_bit(2, 91011762nat, 2261564242916331941866620800950935700259179388000792266395655937654553313279nat, 45505881nat, 0nat, 328223680093404230646028271700334183178522124071490871113812587286876885113nat, 47635517987822613411101528763301298999017874351682757289040785879123068040nat, 794523816045856771768315320107865452179952164442957682096027413555648519609nat, 0nat, 794523816045856771768315320107865452179952164442957682096027413555648519609nat);
    lemma_pow_mod_bit(2, 182023525nat, 2261564242916331941866620800950935700259179388000792266395655937654553313279nat, 91011762nat, 1nat, 794523816045856771768315320107865452179952164442957682096027413555648519609nat, 279128968474509361683759241591952542278472347432490239710968820158179886887nat, 212546568585202378234668360683337110155505815278773878981232422689962440408nat, 0nat, 425093137170404756469336721366674220311011630557547757962464845379924880816nat);
    lemma_pow_mod_bit(2, 364047051nat, 2261564242916331941866620800950935700259179388000792266395655937654553313279nat, 182023525nat, 1nat, 425093137170404756469336721366674220311011630557547757962464845379924880816nat, 79902295871266047399887245135515806023099716038090964153072099448711965997nat, 2227313051374341986949878206077234241401467444334111248390561241781468251693nat, 1nat, 2193061859832352032033135611203532782543755500667430230385466545908383190107nat);
    lemma_pow_mod_bit(2, 728094103nat, 2261564242916331941866620800950935700259179388000792266395655937654553313279nat, 364047051nat, 1nat, 2193061859832352032033135611203532782543755500667430230385466545908383190107nat, 2126634401881665336306752462714718021591140894992194143106273939613829401746nat, 920176319517434473473750960588295961458135035412483969999490015059415086315nat, 0nat, 1840352639034868946947501921176591922916270070824967939998980030118830172630nat);
    lemma_pow_mod_bit(2, 1456188207nat, 2261564242916331941866620800950935700259179388000792266395655937654553313279nat, 728094103nat, 1nat, 1840352639034868946947501921176591922916270070824967939998980030118830172630nat, 1497590814238880391325209631638984047400973239931438686854090205931982061900nat, 784231653288068612992130031997100691187687099009186097606988699036531146800nat, 0nat, 1568463306576137225984260063994201382375374198018372195213977398073062293600nat);
    lemma_pow_mod_bit(2, 2912376415nat, 2261564242916331941866620800950935700259179388000792266395655937654553313279nat, 1456188207nat, 1nat, 1568463306576137225984260063994201382375374198018372195213977398073062293600nat, 1087776812788405058937934228415215357731862551520224389688948221644876627480nat, 108244897612998144261080050082155324489500002469551296889995753871180653080nat, 0nat, 216489795225996288522160100164310648979000004939102593779991507742361306160nat);
}

/// Square-and-multiply for `2^51235067740115583694242 mod 2261564242916331941866620800950935700259179388000792266395655937654553313279`, up to the exponent `190865500793291`.
proof fn pow_p_part0_2()
    requires
        pow_mod(2, 2912376415nat, 2261564242916331941866620800950935700259179388000792266395655937654553313279nat) == 216489795225996288522160100164310648979000004939102593779991507742361306160nat,
    ensures
        pow_mod(2, 190865500793291nat, 2261564242916331941866620800950935700259179388000792266395655937654553313279nat) == 553100734636698791227956950618509732909118532597889606562499344627796476643nat,
{
    lemma_pow_mod_bit(2, 5824752831nat, 2261564242916331941866620800950935700259179388000792266395655937654553313279nat, 2912376415nat, 1nat, 216489795225996288522160100164310648979000004939102593779991507742361306160nat, 20723634795603598370888458698195255660197538674061866188253514119613794303nat, 1447494467115046137803067623067082518362444546204756693066930431679829496063nat, 1nat, 633424691313760333739514445183229336465709704408721119738204925705105678847nat);
    lemma_pow_mod_bit(2, 11649505663nat, 2261564242916331941866620800950935700259179388000792266395655937654553313279nat, 5824752831nat, 1nat, 633424691313760333739514445183229336465709704408721119738204925705105678847nat, 177411205904344596184695152858497069267372779220893614959536396680110220883nat, 356346509261724055495612166152908310426695237210517074322127963408516244052nat, 0nat, 712693018523448110991224332305816620853390474421034148644255926817032488104nat);
    lemma_pow_mod_bit(2, 23299011327nat, 2261564242916331941866620800950935700259179388000792266395655937654553313279nat, 11649505663nat, 1nat, 712693018523448110991224332305816620853390474421034148644255926817032488104nat, 224592929536715887374547197313678514936737180482390123180454162759480579419nat, 553135783864285513921379320923303932429096159531090659061787794651754709915nat, 0nat, 1106271567728571027842758641846607864858192319062181318123575589303509419830nat);
    lemma_pow_mod_bit(2, 46598022654nat, 2261564242916331941866620800950935700259179388000792266395655937654553313279nat, 23299011327nat, 0nat, 1106271567728571027842758641846607864858192319062181318123575589303509419830nat, 541146149351242180166627369302598642836540406193918745500283608761183058953nat, 562426211464112087109993116245584165058831452949545151816249823012662492013nat, 0nat, 562426211464112087109993116245584165058831452949545151816249823012662492013nat);
    lemma_pow_mod_bit(2, 93196045309nat, 2261564242916331941866620800950935700259179388000792266395655937654553313279nat, 46598022654nat, 1nat, 562426211464112087109993116245584165058831452949545151816249823012662492013nat, 139869227386602571576209637002025545692247157107602808285821069743518900609nat, 1345442651923398566316254632521427905131283415610174725628465338798847905258nat, 1nat, 429321060930465190765888464091920110003387443219557184861274739943142497237nat);
    lemma_pow_mod_bit(2, 186392090618nat, 2261564242916331941866620800950935700259179388000792266395655937654553313279nat, 93196045309nat, 0nat, 429321060930465190765888464091920110003387443219557184861274739943142497237nat, 81499596545079934672796763093002169268322421129759882345061825183107491770nat, 1148997656103058832919479979867332716900701509814063315047334291183828420339nat, 0nat, 1148997656103058832919479979867332716900701509814063315047334291183828420339nat);
    lemma_pow_mod_bit(2, 372784181236nat, 2261564242916331941866620800950935700259179388000792266395655937654553313279nat, 186392090618nat, 0nat, 1148997656103058832919479979867332716900701509814063315047334291183828420339nat, 583753310508617091201050141267196399636633906317564819430578787251536567150nat, 684570689923336175013699161850240927678465623262264098942401860473898690071nat, 0nat, 684570689923336175013699161850240927678465623262264098942401860473898690071nat);
    lemma_pow_mod_bit(2, 745568362473nat, 2261564242916331941866620800950935700259179388000792266395655937654553313279nat, 372784181236nat, 1nat, 684570689923336175013699161850240927678465623262264098942401860473898690071nat, 207218092950477383505096143996212907906377644216084491482935126669231300873nat, 842241006869179308145589798006670022073207573661465205733196079572238792474nat, 0nat, 1684482013738358616291179596013340044146415147322930411466392159144477584948nat);
    lemma_pow_mod_bit(2, 1491136724947nat, 2261564242916331941866620800950935700259179388000792266395655937654553313279nat, 745568362473nat, 1nat, 1684482013738358616291179596013340044146415147322930411466392159144477584948nat, 1254653571524923607521369089677144480482972901849680225925753595470794951360nat, 433322254529358059845190606423241143910547352136008473314910403692909053264nat, 0nat, 866644509058716119690381212846482287821094704272016946629820807385818106528nat);
    lemma_pow_mod_bit(2, 2982273449895nat, 2261564242916331941866620800950935700259179388000792266395655937654553313279nat, 1491136724947nat, 1nat, 866644509058716119690381212846482287821094704272016946629820807385818106528nat, 332103192484640603533562602012125620877653762319631701569120137122160800501nat, 171656060993751927173126036837260384934482694143369303207087136106683062005nat, 0nat, 343312121987503854346252073674520769868965388286738606414174272213366124010nat);
    lemma_pow_mod_bit(2, 5964546899790nat, 2261564242916331941866620800950935700259179388000792266395655937654553313279nat, 2982273449895nat, 0nat, 343312121987503854346252073674520769868965388286738606414174272213366124010nat, 52115792630138057327422612678658658482902314589970727647327081271771124178nat, 928992202239429374004175146526333820666905359266329539279801145782253120438nat, 0nat, 928992202239429374004175146526333820666905359266329539279801145782253120438nat);
    lemma_pow_mod_bit(2, 11929093799580nat, 2261564242916331941866620800950935700259179388000792266395655937654553313279nat, 5964546899790nat, 0nat, 928992202239429374004175146526333820666905359266329539279801145782253120438nat, 381606012088683823791801028145166239712303672566666972724333144602526483701nat, 285791359697361803618208277538581760086373286691753485255439197153192946265nat, 0nat, 285791359697361803618208277538581760086373286691753485255439197153192946265nat);
    lemma_pow_mod_bit(2, 23858187599161nat, 2261564242916331941866620800950935700259179388000792266395655937654553313279nat, 11929093799580nat, 1nat, 285791359697361803618208277538581760086373286691753485255439197153192946265nat, 36115136474011063485758201315911388413704964189124584667836331735866730389nat, 100042844379611968565235467274066670323507743268148638468461845446630914694nat, 0nat, 200085688759223937130470934548133340647015486536297276936923690893261829388nat);
    lemma_pow_mod_bit(2, 47716375198322nat, 2261564242916331941866620800950935700259179388000792266395655937654553313279nat, 23858187599161nat, 0nat, 200085688759223937130470934548133340647015486536297276936923690893261829388nat, 17702032109699448781783870300429308645153700427114894364577875211646879508nat, 243318550325307875928044460642360727998317290056695479762391933473731067812nat, 0nat, 243318550325307875928044460642360727998317290056695479762391933473731067812nat);
    lemma_pow_mod_bit(2, 95432750396645nat, 2261564242916331941866620800950935700259179388000792266395655937654553313279nat, 47716375198322nat, 1nat, 243318550325307875928044460642360727998317290056695479762391933473731067812nat, 26178304294404989555782495690869283178899549328977265283541012296583817012nat, 723574622483399836361250544569054201682958815071089947980627120160496764996nat, 0nat, 1447149244966799672722501089138108403365917630142179895961254240320993529992nat);
    lemma_pow_mod_bit(2, 190865500793291nat, 2261564242916331941866620800950935700259179388000792266395655937654553313279nat, 95432750396645nat, 1nat, 1447149244966799672722501089138108403365917630142179895961254240320993529992nat, 926014347709801578327685936391329399869362906226764416754349989472207255857nat, 1407332488776515366547288875784722716584148960299340936479077641141174894961nat, 1nat, 553100734636698791227956950618509732909118532597889606562499344627796476643nat);
}

/// Square-and-multiply for `2^51235067740115583694242 mod 2261564242916331941866620800950935700259179388000792266395655937654553313279`, up to the exponent `12508561459989156175`.
proof fn pow_p_part0_3()
    requires
        pow_mod(2, 190865500793291nat, 2261564242916331941866620800950935700259179388000792266395655937654553313279nat) == 553100734636698791227956950618509732909118532597889606562499344627796476643nat,
    ensures
        pow_mod(2, 12508561459989156175nat, 2261564242916331941866620800950935700259179388000792266395655937654553313279nat) == 1943550817575936661900405727170727045747583783744562640139509831421149067792nat,
{
    lemma_pow_mod_bit(2, 381731001586583nat, 2261564242916331941866620800950935700259179388000792266395655937654553313279nat, 190865500793291nat, 1nat, 553100734636698791227956950618509732909118532597889606562499344627796476643nat, 135269393126398851267716703060817389529272314786615950798819404678394741824nat, 653812169644181402932812265348252082153931663427017754476659693413848668553nat, 0nat, 1307624339288362805865624530696504164307863326854035508953319386827697337106nat);
    lemma_pow_mod_bit(2, 763462003173166nat, 2261564242916331941866620800950935700259179388000792266395655937654553313279nat, 381731001586583nat, 0nat, 1307624339288362805865624530696504164307863326854035508953319386827697337106nat, 756061393371873167045221925249523892395321648974390637170430503463333196544nat, 1954478574568859494847971931856338571279200413275561613982445669338092347460nat, 0nat, 1954478574568859494847971931856338571279200413275561613982445669338092347460nat);
    lemma_pow_mod_bit(2, 1526924006346332nat, 2261564242916331941866620800950935700259179388000792266395655937654553313279nat, 763462003173166nat, 0nat, 1954478574568859494847971931856338571279200413275561613982445669338092347460nat, 1689090420673954642298760709909249518338461373515982675043742142785692287192nat, 594665285388291505573266712883821319196231495932057072624884569734153229032nat, 0nat, 594665285388291505573266712883821319196231495932057072624884569734153229032nat);
    lemma_pow_mod_bit(2, 3053848012692665nat, 2261564242916331941866620800950935700259179388000792266395655937654553313279nat, 1526924006346332nat, 1nat, 594665285388291505573266712883821319196231495932057072624884569734153229032nat, 156363810028199512503425191395734926039269498503046955395245342354644877979nat, 1454613771335592309021341336308835619108646737679558599862790454531132273883nat, 1nat, 647663299754852676176061871666735537958114087358324933329924971407711234487nat);
    lemma_pow_mod_bit(2, 6107696025385330nat, 2261564242916331941866620800950935700259179388000792266395655937654553313279nat, 3053848012692665nat, 0nat, 647663299754852676176061871666735537958114087358324933329924971407711234487nat, 185476822585606574858914333702992778839143268896160900533112498392068202131nat, 411405275484782517063492689402645950381077399186804336203797055726759755620nat, 0nat, 411405275484782517063492689402645950381077399186804336203797055726759755620nat);
    lemma_pow_mod_bit(2, 12215392050770660nat, 2261564242916331941866620800950935700259179388000792266395655937654553313279nat, 6107696025385330nat, 0nat, 411405275484782517063492689402645950381077399186804336203797055726759755620nat, 74839483877960953868063179298171320413206935577541542757189047580943652644nat, 1442824930400797136901443090835369547317829727463926318189745381307432924724nat, 0nat, 1442824930400797136901443090835369547317829727463926318189745381307432924724nat);
    lemma_pow_mod_bit(2, 24430784101541320nat, 2261564242916331941866620800950935700259179388000792266395655937654553313279nat, 12215392050770660nat, 0nat, 1442824930400797136901443090835369547317829727463926318189745381307432924724nat, 920488456742495722178131408517153791717525893300303233250012084728122578044nat, 1247371040413108997546629526236734690014852083818982429477246296405191429900nat, 0nat, 1247371040413108997546629526236734690014852083818982429477246296405191429900nat);
    lemma_pow_mod_bit(2, 48861568203082641nat, 2261564242916331941866620800950935700259179388000792266395655937654553313279nat, 24430784101541320nat, 1nat, 1247371040413108997546629526236734690014852083818982429477246296405191429900nat, 687990410767581640465546545291329365239412543158186913430655485280726661225nat, 646151503176063016931618151377352741079323929110695008483201293831487103225nat, 0nat, 1292303006352126033863236302754705482158647858221390016966402587662974206450nat);
    lemma_pow_mod_bit(2, 97723136406165282nat, 2261564242916331941866620800950935700259179388000792266395655937654553313279nat, 48861568203082641nat, 0nat, 1292303006352126033863236302754705482158647858221390016966402587662974206450nat, 738447764841375585343405618342687716956611538993977728422431198901534508916nat, 1518826267158876232591459219764168961814731055700910790224458337683254906936nat, 0nat, 1518826267158876232591459219764168961814731055700910790224458337683254906936nat);
    lemma_pow_mod_bit(2, 195446272812330565nat, 2261564242916331941866620800950935700259179388000792266395655937654553313279nat, 97723136406165282nat, 1nat, 1518826267158876232591459219764168961814731055700910790224458337683254906936nat, 1020016670778743336214302249269953555395903773723147577310787125753125750881nat, 104477623723182312305180679781273002808541912311764803909599789228717659297nat, 0nat, 208955247446364624610361359562546005617083824623529607819199578457435318594nat);
    lemma_pow_mod_bit(2, 390892545624661130nat, 2261564242916331941866620800950935700259179388000792266395655937654553313279nat, 195446272812330565nat, 0nat, 208955247446364624610361359562546005617083824623529607819199578457435318594nat, 19306237075568578195042467346807567080302057189501034975367885922105105526nat, 1599340983398316158846573500441213012067558466831970896626772570669050057082nat, 0nat, 1599340983398316158846573500441213012067558466831970896626772570669050057082nat);
    lemma_pow_mod_bit(2, 781785091249322260nat, 2261564242916331941866620800950935700259179388000792266395655937654553313279nat, 390892545624661130nat, 0nat, 1599340983398316158846573500441213012067558466831970896626772570669050057082nat, 1131027601444140751890932061807216946393262221560258063711504133760179994767nat, 1663610365735978568587489386269671392794483051181190981868562312274726743731nat, 0nat, 1663610365735978568587489386269671392794483051181190981868562312274726743731nat);
    lemma_pow_mod_bit(2, 1563570182498644521nat, 2261564242916331941866620800950935700259179388000792266395655937654553313279nat, 781785091249322260nat, 1nat, 1663610365735978568587489386269671392794483051181190981868562312274726743731nat, 1223754513121998250273256759102451454744789140348568267821438522495906004480nat, 2074737223588795222836857786633622453325545594127871109770266159703930310441nat, 1nat, 1887910204261258503807094772316309206391911800254949953144876381753307307603nat);
    lemma_pow_mod_bit(2, 3127140364997289043nat, 2261564242916331941866620800950935700259179388000792266395655937654553313279nat, 1563570182498644521nat, 1nat, 1887910204261258503807094772316309206391911800254949953144876381753307307603nat, 1575991020603365152707782757839651317746787576725967477025316367047212144064nat, 815989023449409867858827451687984486226169668066027762863838488984189379753nat, 0nat, 1631978046898819735717654903375968972452339336132055525727676977968378759506nat);
    lemma_pow_mod_bit(2, 6254280729994578087nat, 2261564242916331941866620800950935700259179388000792266395655937654553313279nat, 3127140364997289043nat, 1nat, 1631978046898819735717654903375968972452339336132055525727676977968378759506nat, 1177659380626411302140894590206504287667289017774391802446348774935745529496nat, 882458655440202428365362803248366457485455865988929381913684170760362386652nat, 0nat, 1764917310880404856730725606496732914970911731977858763827368341520724773304nat);
    lemma_pow_mod_bit(2, 12508561459989156175nat, 2261564242916331941866620800950935700259179388000792266395655937654553313279nat, 6254280729994578087nat, 1nat, 1764917310880404856730725606496732914970911731977858763827368341520724773304nat, 1377335675518353446591795394221749014325425595280246258512032144603085383880nat, 971775408787968330950202863585363522873791891872281320069754915710574533896nat, 0nat, 1943550817575936661900405727170727045747583783744562640139509831421149067792nat);
}

/// Square-and-multiply for `2^51235067740115583694242 mod 2261564242916331941866620800950935700259179388000792266395655937654553313279`, up to the exponent `51235067740115583694242`.
proof fn pow_p_part0_4()
    requires
        pow_mod(2, 12508561459989156175nat, 2261564242916331941866620800950935700259179388000792266395655937654553313279nat) == 1943550817575936661900405727170727045747583783744562640139509831421149067792nat,
    ensures
        pow_mod(2, 51235067740115583694242nat, 2261564242916331941866620800950935700259179388000792266395655937654553313279nat) == 527749648413043513627077542133883556015166292224636035737200427873108506884nat,
{
    lemma_pow_mod_bit(2, 25017122919978312350nat, 2261564242916331941866620800950935700259179388000792266395655937654553313279nat, 12508561459989156175nat, 0nat, 1943550817575936661900405727170727045747583783744562640139509831421149067792nat, 1670255351945727968767438010586844931633005505550217927540258056810407776078nat, 1912758587446199159740143126862980161111520960434426996151567957149795815502nat, 0nat, 1912758587446199159740143126862980161111520960434426996151567957149795815502nat);
    lemma_pow_mod_bit(2, 50034245839956624701nat, 2261564242916331941866620800950935700259179388000792266395655937654553313279nat, 25017122919978312350nat, 1nat, 1912758587446199159740143126862980161111520960434426996151567957149795815502nat, 1617749938039028818192409252557639650066662564944453566645105807420240793377nat, 881458803418095583055248719361516685652924649245131724369481087998234158821nat, 0nat, 1762917606836191166110497438723033371305849298490263448738962175996468317642nat);
    lemma_pow_mod_bit(2, 100068491679913249402nat, 2261564242916331941866620800950935700259179388000792266395655937654553313279nat, 50034245839956624701nat, 0nat, 1762917606836191166110497438723033371305849298490263448738962175996468317642nat, 1374216318739357387770244973440277098908832260138073650264012927279455734998nat, 236298877308642132664339580638656125229030224242336073682672747518710001722nat, 0nat, 236298877308642132664339580638656125229030224242336073682672747518710001722nat);
    lemma_pow_mod_bit(2, 200136983359826498805nat, 2261564242916331941866620800950935700259179388000792266395655937654553313279nat, 100068491679913249402nat, 1nat, 236298877308642132664339580638656125229030224242336073682672747518710001722nat, 24689618962723598498661365348599535323171266169070190318794388374994158016nat, 811450799067308942723468285751284897563629110686906833973718720795565870820nat, 0nat, 1622901598134617885446936571502569795127258221373813667947437441591131741640nat);
    lemma_pow_mod_bit(2, 400273966719652997611nat, 2261564242916331941866620800950935700259179388000792266395655937654553313279nat, 200136983359826498805nat, 1nat, 1622901598134617885446936571502569795127258221373813667947437441591131741640nat, 1164596409532698951030973269736478668515248228428116455712701228723925099807nat, 1178078979563459187357944478455677663292453674888709367769539038837096452447nat, 1nat, 94593716210586432849268155960419626325727961776626469143422140019639591615nat);
    lemma_pow_mod_bit(2, 800547933439305995222nat, 2261564242916331941866620800950935700259179388000792266395655937654553313279nat, 400273966719652997611nat, 0nat, 94593716210586432849268155960419626325727961776626469143422140019639591615nat, 3956540776834345524653483179108825670878663394422981497300647915200247616nat, 1626197535554680403150132533797529527236568436518779529856183662989957415361nat, 0nat, 1626197535554680403150132533797529527236568436518779529856183662989957415361nat);
    lemma_pow_mod_bit(2, 1601095866878611990445nat, 2261564242916331941866620800950935700259179388000792266395655937654553313279nat, 800547933439305995222nat, 1nat, 1626197535554680403150132533797529527236568436518779529856183662989957415361nat, 1169331551348705920512827936204944608727341477653783119057030354464091403618nat, 247485556614745121221054681659080933604980120405684920615931457767890716899nat, 0nat, 494971113229490242442109363318161867209960240811369841231862915535781433798nat);
    lemma_pow_mod_bit(2, 3202191733757223980890nat, 2261564242916331941866620800950935700259179388000792266395655937654553313279nat, 1601095866878611990445nat, 0nat, 494971113229490242442109363318161867209960240811369841231862915535781433798nat, 108330507832805638202717579596058386861891992745793277028311227759246045327nat, 1923856187401729199598877879148397107651714825487308934419792847874991707571nat, 0nat, 1923856187401729199598877879148397107651714825487308934419792847874991707571nat);
    lemma_pow_mod_bit(2, 6404383467514447961780nat, 2261564242916331941866620800950935700259179388000792266395655937654553313279nat, 3202191733757223980890nat, 0nat, 1923856187401729199598877879148397107651714825487308934419792847874991707571nat, 1636576383534927753742532278561923668692935714582995590941403397577362075667nat, 1809691740808787423392884909732826647560970442084142354191724260538824837948nat, 0nat, 1809691740808787423392884909732826647560970442084142354191724260538824837948nat);
    lemma_pow_mod_bit(2, 12808766935028895923560nat, 2261564242916331941866620800950935700259179388000792266395655937654553313279nat, 6404383467514447961780nat, 0nat, 1809691740808787423392884909732826647560970442084142354191724260538824837948nat, 1448105755566944394890738640139146386264620445433486361310286586747370405647nat, 2234358494133584326187169589417040725953612000616938749875615953774359164191nat, 0nat, 2234358494133584326187169589417040725953612000616938749875615953774359164191nat);
    lemma_pow_mod_bit(2, 25617533870057791847121nat, 2261564242916331941866620800950935700259179388000792266395655937654553313279nat, 12808766935028895923560nat, 1nat, 2234358494133584326187169589417040725953612000616938749875615953774359164191nat, 2207480020054240904633525412620477283717033079984458802393760887210536095538nat, 841994128363660843240019677272477086718877517526949370660066734362108635379nat, 0nat, 1683988256727321686480039354544954173437755035053898741320133468724217270758nat);
    lemma_pow_mod_bit(2, 51235067740115583694242nat, 2261564242916331941866620800950935700259179388000792266395655937654553313279nat, 25617533870057791847121nat, 0nat, 1683988256727321686480039354544954173437755035053898741320133468724217270758nat, 1253918148767103933128262948616074386594008766958323985570458416068065549920nat, 527749648413043513627077542133883556015166292224636035737200427873108506884nat, 0nat, 527749648413043513627077542133883556015166292224636035737200427873108506884nat);
}

/// Square-and-multiply for `2^44140943745558712684180415615833599051864440750596558 mod 44140943745558712684180415615833599051864440750596559`, up to the exponent `60404`.
proof fn pow_q1_full_0()
    ensures
        pow_mod(2, 60404nat, 44140943745558712684180415615833599051864440750596559nat) == 1210383385744042845338965970728616622256093394710232nat,
{
    lemma_pow_mod_zero(2, 44140943745558712684180415615833599051864440750596559nat);
    lemma_pow_mod_bit(2, 1nat, 44140943745558712684180415615833599051864440750596559nat, 0nat, 1nat, 1nat, 0nat, 1nat, 0nat, 2nat);
    lemma_pow_mod_bit(2, 3nat, 44140943745558712684180415615833599051864440750596559nat, 1nat, 1nat, 2nat, 0nat, 4nat, 0nat, 8nat);
    lemma_pow_mod_bit(2, 7nat, 44140943745558712684180415615833599051864440750596559nat, 3nat, 1nat, 8nat, 0nat, 64nat, 0nat, 128nat);
    lemma_pow_mod_bit(2, 14nat, 44140943745558712684180415615833599051864440750596559nat, 7nat, 0nat, 128nat, 0nat, 16384nat, 0nat, 16384nat);
    lemma_pow_mod_bit(2, 29nat, 44140943745558712684180415615833599051864440750596559nat, 14nat, 1nat, 16384nat, 0nat, 268435456nat, 0nat, 536870912nat);
    lemma_pow_mod_bit(2, 58nat, 44140943745558712684180415615833599051864440750596559nat, 29nat, 0nat, 536870912nat, 0nat, 288230376151711744nat, 0nat, 288230376151711744nat);
    lemma_pow_mod_bit(2, 117nat, 44140943745558712684180415615833599051864440750596559nat, 58nat, 1nat, 288230376151711744nat, 0nat, 83076749736557242056487941267521536nat, 0nat, 166153499473114484112975882535043072nat);
    lemma_pow_mod_bit(2, 235nat, 44140943745558712684180415615833599051864440750596559nat, 117nat, 1nat, 166153499473114484112975882535043072nat, 625428072999457808nat, 33882700495705846814045811703550395209708737344714512nat, 1nat, 23624457245852980943911207791267191367553033938832465nat);
    lemma_pow_mod_bit(2, 471nat, 44140943745558712684180415615833599051864440750596559nat, 235nat, 1nat, 23624457245852980943911207791267191367553033938832465nat, 12643929485927466998350134208988265848620547119313605nat, 39799128453075560678434340114949153988478732983091030nat, 1nat, 35457313160592408672688264614064708925093025215585501nat);
    lemma_pow_mod_bit(2, 943nat, 44140943745558712684180415615833599051864440750596559nat, 471nat, 1nat, 35457313160592408672688264614064708925093025215585501nat, 28481970476555935428087492627040895711367596894094154nat, 37925133130679771911979545320752773561648238827004915nat, 1nat, 31709322515800831139778675025671948071432036903413271nat);
    lemma_pow_mod_bit(2, 1887nat, 44140943745558712684180415615833599051864440750596559nat, 943nat, 1nat, 31709322515800831139778675025671948071432036903413271nat, 22778877139713196302411552951896591617939548187775601nat, 30025446818677360820852204946330748478767558244162482nat, 1nat, 15909949891796008957523994276827897905670675737728405nat);
    lemma_pow_mod_bit(2, 3775nat, 44140943745558712684180415615833599051864440750596559nat, 1887nat, 1nat, 15909949891796008957523994276827897905670675737728405nat, 5734505972925158080147880222463813082731357734700706nat, 29169959413715500676310827612774006468930924725373371nat, 1nat, 14198975081872288668441239609714413885997408700150183nat);
    lemma_pow_mod_bit(2, 7550nat, 44140943745558712684180415615833599051864440750596559nat, 3775nat, 0nat, 14198975081872288668441239609714413885997408700150183nat, 4567435044836698989370738999880793310650380170364962nat, 21005370108692898602387635338310402429992552503567731nat, 0nat, 21005370108692898602387635338310402429992552503567731nat);
    lemma_pow_mod_bit(2, 15101nat, 44140943745558712684180415615833599051864440750596559nat, 7550nat, 1nat, 21005370108692898602387635338310402429992552503567731nat, 9995834614378028297804213070362670515280334772560415nat, 12825309415804797359002653035014041277864988585876376nat, 0nat, 25650618831609594718005306070028082555729977171752752nat);
    lemma_pow_mod_bit(2, 30202nat, 44140943745558712684180415615833599051864440750596559nat, 15101nat, 0nat, 25650618831609594718005306070028082555729977171752752nat, 14905758477597695815610797129304188852323997482905871nat, 8627405874187062379859133567867559630871367726075615nat, 0nat, 8627405874187062379859133567867559630871367726075615nat);
    lemma_pow_mod_bit(2, 60404nat, 44140943745558712684180415615833599051864440750596559nat, 30202nat, 0nat, 8627405874187062379859133567867559630871367726075615nat, 1686237896203714425691251030135125240138943748045127nat, 1210383385744042845338965970728616622256093394710232nat, 0nat, 1210383385744042845338965970728616622256093394710232nat);
}

/// Square-and-multiply for `2^44140943745558712684180415615833599051864440750596558 mod 44140943745558712684180415615833599051864440750596559`, up to the exponent `3958696747`.
proof fn pow_q1_full_1()
    requires
        pow_mod(2, 60404nat, 44140943745558712684180415615833599051864440750596559nat) == 1210383385744042845338965970728616622256093394710232nat,
    ensures
        pow_mod(2, 3958696747nat, 44140943745558712684180415615833599051864440750596559nat) == 1756985852305712111822563657493477746151036983214956nat,
{
    lemma_pow_mod_bit(2, 120809nat, 44140943745558712684180415615833599051864440750596559nat, 60404nat, 1nat, 1210383385744042845338965970728616622256093394710232nat, 33189773851009194669197022331352036117823436659774nat, 43027467083300845971787999384008624179520378427376158nat, 1nat, 41913990421042979259395583152183649307176316104155757nat);
    lemma_pow_mod_bit(2, 241619nat, 44140943745558712684180415615833599051864440750596559nat, 120809nat, 1nat, 41913990421042979259395583152183649307176316104155757nat, 39799389046638658321038351486294225270570660495745010nat, 20947928117639128141797824873260696400843007068822459nat, 0nat, 41895856235278256283595649746521392801686014137644918nat);
    lemma_pow_mod_bit(2, 483239nat, 44140943745558712684180415615833599051864440750596559nat, 241619nat, 1nat, 41895856235278256283595649746521392801686014137644918nat, 39764957899517305831647989660557764688031581881778310nat, 5984745713952251526760608778457437240413883164391434nat, 0nat, 11969491427904503053521217556914874480827766328782868nat);
    lemma_pow_mod_bit(2, 966478nat, 44140943745558712684180415615833599051864440750596559nat, 483239nat, 0nat, 11969491427904503053521217556914874480827766328782868nat, 3245710510145005958079057261114262071762314226335717nat, 36141926133043391843329857844186461608756133931307621nat, 0nat, 36141926133043391843329857844186461608756133931307621nat);
    lemma_pow_mod_bit(2, 1932957nat, 44140943745558712684180415615833599051864440750596559nat, 966478nat, 1nat, 36141926133043391843329857844186461608756133931307621nat, 29592453485723069788056574141250607250863340462080033nat, 29404985469551584635933802770448341577303808180273194nat, 1nat, 14669027193544456587687189925063084102743175609949829nat);
    lemma_pow_mod_bit(2, 3865914nat, 44140943745558712684180415615833599051864440750596559nat, 1932957nat, 0nat, 14669027193544456587687189925063084102743175609949829nat, 4874847263015244288823494190842478301622093776099673nat, 6767357132408568596141170618574531785329092902304034nat, 0nat, 6767357132408568596141170618574531785329092902304034nat);
    lemma_pow_mod_bit(2, 7731829nat, 44140943745558712684180415615833599051864440750596559nat, 3865914nat, 1nat, 6767357132408568596141170618574531785329092902304034nat, 1037520240200325352420428914375753490939087302716667nat, 28846992193182382763393477904379628251825624170524303nat, 1nat, 13553040640806052842606540192925657451786807590452047nat);
    lemma_pow_mod_bit(2, 15463659nat, 44140943745558712684180415615833599051864440750596559nat, 7731829nat, 1nat, 13553040640806052842606540192925657451786807590452047nat, 4161327217427746846850194600083992438055408952914124nat, 28718565179796671127288384871559333329375783309590893nat, 1nat, 13296186614034629570396354127285067606887125868585227nat);
    lemma_pow_mod_bit(2, 30927318nat, 44140943745558712684180415615833599051864440750596559nat, 15463659nat, 0nat, 13296186614034629570396354127285067606887125868585227nat, 4005092856516495199743722852132858693275515829862657nat, 12522995069522271913942404496597082614383026775844266nat, 0nat, 12522995069522271913942404496597082614383026775844266nat);
    lemma_pow_mod_bit(2, 61854636nat, 44140943745558712684180415615833599051864440750596559nat, 30927318nat, 0nat, 12522995069522271913942404496597082614383026775844266nat, 3552833088827156861589774735840729340754848605559402nat, 22036796397046453923471079996930551204228441673781038nat, 0nat, 22036796397046453923471079996930551204228441673781038nat);
    lemma_pow_mod_bit(2, 123709273nat, 44140943745558712684180415615833599051864440750596559nat, 61854636nat, 1nat, 22036796397046453923471079996930551204228441673781038nat, 11001586151944038984129686351085256596855682725023442nat, 34946029880287478141369216413074160906983584408821366nat, 1nat, 25751116015016243598558017210314722762102728067046173nat);
    lemma_pow_mod_bit(2, 247418546nat, 44140943745558712684180415615833599051864440750596559nat, 123709273nat, 0nat, 25751116015016243598558017210314722762102728067046173nat, 15022786550311275869834567361789093786147259529571992nat, 24309584162898805727804620582946401020073901375970401nat, 0nat, 24309584162898805727804620582946401020073901375970401nat);
    lemma_pow_mod_bit(2, 494837093nat, 44140943745558712684180415615833599051864440750596559nat, 247418546nat, 1nat, 24309584162898805727804620582946401020073901375970401nat, 13387930389062424036584730342191147623888477297361701nat, 35042313500825858489598148851581793999600591879113942nat, 1nat, 25943683256093004295015882087329988947336743007631325nat);
    lemma_pow_mod_bit(2, 989674186nat, 44140943745558712684180415615833599051864440750596559nat, 494837093nat, 0nat, 25943683256093004295015882087329988947336743007631325nat, 15248307892379456112304450607875609566110746002162159nat, 30310370917062653595021022875340289012735304015844744nat, 0nat, 30310370917062653595021022875340289012735304015844744nat);
    lemma_pow_mod_bit(2, 1979348373nat, 44140943745558712684180415615833599051864440750596559nat, 989674186nat, 1nat, 30310370917062653595021022875340289012735304015844744nat, 20813297296625094509485389491803998567127965067251240nat, 17757780249518502629899779042665534269478823579942376nat, 0nat, 35515560499037005259799558085331068538957647159884752nat);
    lemma_pow_mod_bit(2, 3958696747nat, 44140943745558712684180415615833599051864440750596559nat, 1979348373nat, 1nat, 35515560499037005259799558085331068538957647159884752nat, 28575624590891766176262056162186341709916594001905814nat, 878492926152856055911281828746738873075518491607478nat, 0nat, 1756985852305712111822563657493477746151036983214956nat);
}

/// Square-and-multiply for `2^44140943745558712684180415615833599051864440750596558 mod 44140943745558712684180415615833599051864440750596559`, up to the exponent `259437150064343`.
proof fn pow_q1_full_2()
    requires
        pow_mod(2, 3958696747nat, 44140943745558712684180415615833599051864440750596559nat) == 1756985852305712111822563657493477746151036983214956nat,
    ensures
        pow_mod(2, 259437150064343nat, 44140943745558712684180415615833599051864440750596559nat) == 22282523652374171435537703551840354629199806674590713nat,
{
    lemma_pow_mod_bit(2, 7917393495nat, 44140943745558712684180415615833599051864440750596559nat, 3958696747nat, 1nat, 1756985852305712111822563657493477746151036983214956nat, 69935054016896303512867947757143555137063700011409nat, 41257096985926407631625296111079719518912149845940305nat, 1nat, 38373250226294102579070176606325839985959858941284051nat);
    lemma_pow_mod_bit(2, 15834786991nat, 44140943745558712684180415615833599051864440750596559nat, 7917393495nat, 1nat, 38373250226294102579070176606325839985959858941284051nat, 33359194615723143950822264527143058932696984173371428nat, 38662523558703950890825547984837608473834807381254349nat, 1nat, 33184103371849189097470680353841617895805174011912139nat);
    lemma_pow_mod_bit(2, 31669573982nat, 44140943745558712684180415615833599051864440750596559nat, 15834786991nat, 0nat, 33184103371849189097470680353841617895805174011912139nat, 24947013433630303284035939266640753729906908069213535nat, 36655511180498703707922683201351466679079857848329256nat, 0nat, 36655511180498703707922683201351466679079857848329256nat);
    lemma_pow_mod_bit(2, 63339147964nat, 44140943745558712684180415615833599051864440750596559nat, 31669573982nat, 0nat, 36655511180498703707922683201351466679079857848329256nat, 30439460190265095080261010554750493246869405845686811nat, 35736222920816641217463974760950686008407465257230187nat, 0nat, 35736222920816641217463974760950686008407465257230187nat);
    lemma_pow_mod_bit(2, 126678295929nat, 44140943745558712684180415615833599051864440750596559nat, 63339147964nat, 1nat, 35736222920816641217463974760950686008407465257230187nat, 28931815232763236413663667972299454789625846801657927nat, 6076884234601543525174830199315814692257803602781776nat, 0nat, 12153768469203087050349660398631629384515607205563552nat);
    lemma_pow_mod_bit(2, 253356591859nat, 44140943745558712684180415615833599051864440750596559nat, 126678295929nat, 1nat, 12153768469203087050349660398631629384515607205563552nat, 3346418890689385355782813133826285755201753050100185nat, 5261131908689980229200033538552947761874148444593289nat, 0nat, 10522263817379960458400067077105895523748296889186578nat);
    lemma_pow_mod_bit(2, 506713183719nat, 44140943745558712684180415615833599051864440750596559nat, 253356591859nat, 1nat, 10522263817379960458400067077105895523748296889186578nat, 2508284292260595562537295668146765750314511164013493nat, 35805329199032942728919110428366406683430414019979497nat, 1nat, 27469714652507172773657805240899214314996387289362435nat);
    lemma_pow_mod_bit(2, 1013426367438nat, 44140943745558712684180415615833599051864440750596559nat, 506713183719nat, 0nat, 27469714652507172773657805240899214314996387289362435nat, 17094904618256845650105828822796480691115727147147360nat, 10301428061086358733293325690712550109465213707194985nat, 0nat, 10301428061086358733293325690712550109465213707194985nat);
    lemma_pow_mod_bit(2, 2026852734877nat, 44140943745558712684180415615833599051864440750596559nat, 1013426367438nat, 1nat, 10301428061086358733293325690712550109465213707194985nat, 2404104015297923324237525328716644008439052006746347nat, 1177559899814525021672202146749420924551823965130252nat, 0nat, 2355119799629050043344404293498841849103647930260504nat);
    lemma_pow_mod_bit(2, 4053705469755nat, 44140943745558712684180415615833599051864440750596559nat, 2026852734877nat, 1nat, 2355119799629050043344404293498841849103647930260504nat, 125656336270854034857653849147710525125868103465095nat, 28833870792498098620101475926312967226230225018725911nat, 1nat, 13526797839437484556022536236792335400596009286855263nat);
    lemma_pow_mod_bit(2, 8107410939510nat, 44140943745558712684180415615833599051864440750596559nat, 4053705469755nat, 0nat, 13526797839437484556022536236792335400596009286855263nat, 4145227633639363388682911059943534573873416252885717nat, 36530676085855821076259880336077221481982502910351366nat, 0nat, 36530676085855821076259880336077221481982502910351366nat);
    lemma_pow_mod_bit(2, 16214821879021nat, 44140943745558712684180415615833599051864440750596559nat, 8107410939510nat, 1nat, 36530676085855821076259880336077221481982502910351366nat, 30232482182123473785357626105773229401330570980766061nat, 29109535747462203789770952084957056871895973007481857nat, 1nat, 14078127749365694895361488554080514691927505264367155nat);
    lemma_pow_mod_bit(2, 32429643758042nat, 44140943745558712684180415615833599051864440750596559nat, 16214821879021nat, 0nat, 14078127749365694895361488554080514691927505264367155nat, 4490019109466862516456932391906639632936105924473126nat, 9173136331082122798807873584957357847278060379220591nat, 0nat, 9173136331082122798807873584957357847278060379220591nat);
    lemma_pow_mod_bit(2, 64859287516085nat, 44140943745558712684180415615833599051864440750596559nat, 32429643758042nat, 1nat, 9173136331082122798807873584957357847278060379220591nat, 1906312439391042020408978832779953253747020055192458nat, 7901832324245115175191930401579112416550207580837259nat, 0nat, 15803664648490230350383860803158224833100415161674518nat);
    lemma_pow_mod_bit(2, 129718575032171nat, 44140943745558712684180415615833599051864440750596559nat, 64859287516085nat, 1nat, 15803664648490230350383860803158224833100415161674518nat, 5658144007106084568696094630544517881237134746791784nat, 11708034251233703744161079265258427429866380410661068nat, 0nat, 23416068502467407488322158530516854859732760821322136nat);
    lemma_pow_mod_bit(2, 259437150064343nat, 44140943745558712684180415615833599051864440750596559nat, 129718575032171nat, 1nat, 23416068502467407488322158530516854859732760821322136nat, 12421851858738639420984812430906433745564027130413540nat, 33211733698966442059859059583836976840532123712593636nat, 1nat, 22282523652374171435537703551840354629199806674590713nat);
}

/// Square-and-multiply for `2^44140943745558712684180415615833599051864440750596558 mod 44140943745558712684180415615833599051864440750596559`, up to the exponent `17002473066616799554`.
proof fn pow_q1_full_3()
    requires
        pow_mod(2, 259437150064343nat, 44140943745558712684180415615833599051864440750596559nat) == 22282523652374171435537703551840354629199806674590713nat,
    ensures
        pow_mod(2, 17002473066616799554nat, 44140943745558712684180415615833599051864440750596559nat) == 24077713770716406903061854005416629274790590836264259nat,
{
    lemma_pow_mod_bit(2, 518874300128686nat, 44140943745558712684180415615833599051864440750596559nat, 259437150064343nat, 0nat, 22282523652374171435537703551840354629199806674590713nat, 11248306406420486770765313065074939206635650684158961nat, 8096250134403423341601843460272062199573434130233170nat, 0nat, 8096250134403423341601843460272062199573434130233170nat);
    lemma_pow_mod_bit(2, 1037748600257373nat, 44140943745558712684180415615833599051864440750596559nat, 518874300128686nat, 1nat, 8096250134403423341601843460272062199573434130233170nat, 1484999202025959371181957431182346640114341267299357nat, 26307493110520373405627671436819347547220561981136337nat, 1nat, 8474042475482034127074927257805096042576683211676115nat);
    lemma_pow_mod_bit(2, 2075497200514746nat, 44140943745558712684180415615833599051864440750596559nat, 1037748600257373nat, 0nat, 8474042475482034127074927257805096042576683211676115nat, 1626820583859828746500423135522399606129584512313134nat, 25058197889575984148587179844134621496262976150587319nat, 0nat, 25058197889575984148587179844134621496262976150587319nat);
    lemma_pow_mod_bit(2, 4150994401029492nat, 44140943745558712684180415615833599051864440750596559nat, 2075497200514746nat, 0nat, 25058197889575984148587179844134621496262976150587319nat, 14225189318393956150035793899262186140709013803862297nat, 33447883406009193999589797178940429719798007605571738nat, 0nat, 33447883406009193999589797178940429719798007605571738nat);
    lemma_pow_mod_bit(2, 8301988802058984nat, 44140943745558712684180415615833599051864440750596559nat, 4150994401029492nat, 0nat, 33447883406009193999589797178940429719798007605571738nat, 25345196758611453597876494736733980628585290991509981nat, 28830469596889241081763537017589808207352731911585265nat, 0nat, 28830469596889241081763537017589808207352731911585265nat);
    lemma_pow_mod_bit(2, 16603977604117968nat, 44140943745558712684180415615833599051864440750596559nat, 8301988802058984nat, 0nat, 28830469596889241081763537017589808207352731911585265nat, 18830498549564575939048122192546523849313194721206785nat, 18144317618081570883167700497854510805944948216667410nat, 0nat, 18144317618081570883167700497854510805944948216667410nat);
    lemma_pow_mod_bit(2, 33207955208235936nat, 44140943745558712684180415615833599051864440750596559nat, 16603977604117968nat, 0nat, 18144317618081570883167700497854510805944948216667410nat, 7458296852997161601466464490291073147476440368836740nat, 17965388482029154095032125589541426372490978679330440nat, 0nat, 17965388482029154095032125589541426372490978679330440nat);
    lemma_pow_mod_bit(2, 66415910416471873nat, 44140943745558712684180415615833599051864440750596559nat, 33207955208235936nat, 1nat, 17965388482029154095032125589541426372490978679330440nat, 7311923033877139172739028860185503036206482925485115nat, 34993899402627105382311306009760913707858505985874315nat, 1nat, 25846855059695498080442196403688228363852571221152071nat);
    lemma_pow_mod_bit(2, 132831820832943746nat, 44140943745558712684180415615833599051864440750596559nat, 66415910416471873nat, 0nat, 25846855059695498080442196403688228363852571221152071nat, 15134699437506347341747236718886381985973916715947457nat, 14972827223904858619739845090365311202085498858588578nat, 0nat, 14972827223904858619739845090365311202085498858588578nat);
    lemma_pow_mod_bit(2, 265663641665887493nat, 44140943745558712684180415615833599051864440750596559nat, 132831820832943746nat, 1nat, 14972827223904858619739845090365311202085498858588578nat, 5078857315991644149099188042764739821879770648161515nat, 36133976070713826243231126468389073696412201436835199nat, 1nat, 28127008395868939802281837320944548340959962123073839nat);
    lemma_pow_mod_bit(2, 531327283331774986nat, 44140943745558712684180415615833599051864440750596559nat, 265663641665887493nat, 0nat, 28127008395868939802281837320944548340959962123073839nat, 17922784022507041743894550198542617889982189247611036nat, 37674141807466510904560178917555087411911923254172797nat, 0nat, 37674141807466510904560178917555087411911923254172797nat);
    lemma_pow_mod_bit(2, 1062654566663549972nat, 44140943745558712684180415615833599051864440750596559nat, 531327283331774986nat, 0nat, 37674141807466510904560178917555087411911923254172797nat, 32154748867867250787660484524884095470216335039688432nat, 28961576223016680505806378501003763871181727243497721nat, 0nat, 28961576223016680505806378501003763871181727243497721nat);
    lemma_pow_mod_bit(2, 2125309133327099944nat, 44140943745558712684180415615833599051864440750596559nat, 1062654566663549972nat, 0nat, 28961576223016680505806378501003763871181727243497721nat, 19002151430122042810414164117765710024400555046562067nat, 41703430441432961082636759755637194076142421862066388nat, 0nat, 41703430441432961082636759755637194076142421862066388nat);
    lemma_pow_mod_bit(2, 4250618266654199888nat, 44140943745558712684180415615833599051864440750596559nat, 2125309133327099944nat, 0nat, 41703430441432961082636759755637194076142421862066388nat, 39400519404581747447034684214830703434992509969388832nat, 18538165023411520159963406513434345518620687137456nat, 0nat, 18538165023411520159963406513434345518620687137456nat);
    lemma_pow_mod_bit(2, 8501236533308399777nat, 44140943745558712684180415615833599051864440750596559nat, 4250618266654199888nat, 1nat, 18538165023411520159963406513434345518620687137456nat, 7785596167046526215320274726828155973977952794nat, 21078708842869358596765642482684221176629054397316090nat, 0nat, 42157417685738717193531284965368442353258108794632180nat);
    lemma_pow_mod_bit(2, 17002473066616799554nat, 44140943745558712684180415615833599051864440750596559nat, 8501236533308399777nat, 0nat, 42157417685738717193531284965368442353258108794632180nat, 40263023739918456872951817462044835184252856164363299nat, 24077713770716406903061854005416629274790590836264259nat, 0nat, 24077713770716406903061854005416629274790590836264259nat);
}

/// Square-and-multiply for `2^44140943745558712684180415615833599051864440750596558 mod 44140943745558712684180415615833599051864440750596559`, up to the exponent `1114274074893798575630752`.
proof fn pow_q1_full_4()
    requires
        pow_mod(2, 17002473066616799554nat, 44140943745558712684180415615833599051864440750596559nat) == 24077713770716406903061854005416629274790590836264259nat,
    ensures
        pow_mod(2, 1114274074893798575630752nat, 44140943745558712684180415615833599051864440750596559nat) == 30559143252151134711851580663411982825674207294829670nat,
{
    lemma_pow_mod_bit(2, 34004946133233599109nat, 44140943745558712684180415615833599051864440750596559nat, 17002473066616799554nat, 1nat, 24077713770716406903061854005416629274790590836264259nat, 13133754089317070142072838076523752617694617303692482nat, 43820250030569921186945107292687160180270015897449643nat, 1nat, 43499556315581129689709798969540721308675591044302727nat);
    lemma_pow_mod_bit(2, 68009892266467198219nat, 44140943745558712684180415615833599051864440750596559nat, 34004946133233599109nat, 1nat, 43499556315581129689709798969540721308675591044302727nat, 42867488528556913321907822210089802555828281241869001nat, 34004168064146173099382155467711203295980486740268970nat, 1nat, 23867392382733633514583895319588807540096532729941381nat);
    lemma_pow_mod_bit(2, 136019784532934396439nat, 44140943745558712684180415615833599051864440750596559nat, 68009892266467198219nat, 1nat, 23867392382733633514583895319588807540096532729941381nat, 12905306747291456517677281436869844680269058950662997nat, 10417786602934269684267166116035837604933327379359838nat, 0nat, 20835573205868539368534332232071675209866654758719676nat);
    lemma_pow_mod_bit(2, 272039569065868792878nat, 44140943745558712684180415615833599051864440750596559nat, 136019784532934396439nat, 0nat, 20835573205868539368534332232071675209866654758719676nat, 9834885119799609036449435755635274710492026352390830nat, 43431198271436424793115098687726036791696676328391006nat, 0nat, 43431198271436424793115098687726036791696676328391006nat);
    lemma_pow_mod_bit(2, 544079138131737585757nat, 44140943745558712684180415615833599051864440750596559nat, 272039569065868792878nat, 1nat, 43431198271436424793115098687726036791696676328391006nat, 42732864846882917483942743922225124536235682039915040nat, 8957241466954648696354958743593358915476835145344676nat, 0nat, 17914482933909297392709917487186717830953670290689352nat);
    lemma_pow_mod_bit(2, 1088158276263475171514nat, 44140943745558712684180415615833599051864440750596559nat, 544079138131737585757nat, 0nat, 17914482933909297392709917487186717830953670290689352nat, 7270544568309508450543884175660304883992980687641007nat, 8276688178150308688266233838136901599756105684684991nat, 0nat, 8276688178150308688266233838136901599756105684684991nat);
    lemma_pow_mod_bit(2, 2176316552526950343028nat, 44140943745558712684180415615833599051864440750596559nat, 1088158276263475171514nat, 0nat, 8276688178150308688266233838136901599756105684684991nat, 1551928014797500431278283429918113110018738408829720nat, 38992279034735156180991941886969236218688123851736601nat, 0nat, 38992279034735156180991941886969236218688123851736601nat);
    lemma_pow_mod_bit(2, 4352633105053900686057nat, 44140943745558712684180415615833599051864440750596559nat, 2176316552526950343028nat, 1nat, 38992279034735156180991941886969236218688123851736601nat, 34444162161250193558739872460512730745281581852019972nat, 41047513170538598199860502303395891310836365300556853nat, 1nat, 37954082595518483715540588990958183569808289850517147nat);
    lemma_pow_mod_bit(2, 8705266210107801372115nat, 44140943745558712684180415615833599051864440750596559nat, 4352633105053900686057nat, 1nat, 37954082595518483715540588990958183569808289850517147nat, 32634381221456728480829670251401844953443062842534044nat, 695376415388966832084775514235693772820211074265013nat, 0nat, 1390752830777933664169551028471387545640422148530026nat);
    lemma_pow_mod_bit(2, 17410532420215602744230nat, 44140943745558712684180415615833599051864440750596559nat, 8705266210107801372115nat, 0nat, 1390752830777933664169551028471387545640422148530026nat, 43818579128395882797080150443207079113108591160685nat, 6627178871320135368379772122056387196823164646477761nat, 0nat, 6627178871320135368379772122056387196823164646477761nat);
    lemma_pow_mod_bit(2, 34821064840431205488461nat, 44140943745558712684180415615833599051864440750596559nat, 17410532420215602744230nat, 1nat, 6627178871320135368379772122056387196823164646477761nat, 994983252864661051563395052080179640158143830641476nat, 6099070623890447489689418793501147200625092819292037nat, 0nat, 12198141247780894979378837587002294401250185638584074nat);
    lemma_pow_mod_bit(2, 69642129680862410976922nat, 44140943745558712684180415615833599051864440750596559nat, 34821064840431205488461nat, 0nat, 12198141247780894979378837587002294401250185638584074nat, 3370898700274952303554363673976285225472803807271324nat, 31596268404052695311442120103778196235758484592663360nat, 0nat, 31596268404052695311442120103778196235758484592663360nat);
    lemma_pow_mod_bit(2, 139284259361724821953844nat, 44140943745558712684180415615833599051864440750596559nat, 69642129680862410976922nat, 0nat, 31596268404052695311442120103778196235758484592663360nat, 22616738391810802435973678459490895665708019808220293nat, 23600205500893137017581411077230993043307426446717813nat, 0nat, 23600205500893137017581411077230993043307426446717813nat);
    lemma_pow_mod_bit(2, 278568518723449643907688nat, 44140943745558712684180415615833599051864440750596559nat, 139284259361724821953844nat, 0nat, 23600205500893137017581411077230993043307426446717813nat, 12617983496114687723741057057556731092435512138654062nat, 26149134135100604585017024367110451838283730622930311nat, 0nat, 26149134135100604585017024367110451838283730622930311nat);
    lemma_pow_mod_bit(2, 557137037446899287815376nat, 44140943745558712684180415615833599051864440750596559nat, 278568518723449643907688nat, 0nat, 26149134135100604585017024367110451838283730622930311nat, 15490770200949376054225731010406900132572513209737136nat, 8270123879033545092839741959444456319267652786441697nat, 0nat, 8270123879033545092839741959444456319267652786441697nat);
    lemma_pow_mod_bit(2, 1114274074893798575630752nat, 44140943745558712684180415615833599051864440750596559nat, 557137037446899287815376nat, 0nat, 8270123879033545092839741959444456319267652786441697nat, 1549467301125442753099296894804855141671652761533621nat, 30559143252151134711851580663411982825674207294829670nat, 0nat, 30559143252151134711851580663411982825674207294829670nat);
}

/// Square-and-multiply for `2^44140943745558712684180415615833599051864440750596558 mod 44140943745558712684180415615833599051864440750596559`, up to the exponent `73025065772239983452537007339`.
proof fn pow_q1_full_5()
    requires
        pow_mod(2, 1114274074893798575630752nat, 44140943745558712684180415615833599051864440750596559nat) == 30559143252151134711851580663411982825674207294829670nat,
    ensures
        pow_mod(2, 73025065772239983452537007339nat, 44140943745558712684180415615833599051864440750596559nat) == 36366635286764976103130234853888599191054190634470192nat,
{
    lemma_pow_mod_bit(2, 2228548149787597151261505nat, 44140943745558712684180415615833599051864440750596559nat, 1114274074893798575630752nat, 1nat, 30559143252151134711851580663411982825674207294829670nat, 21156349571693415755875729259035696955038638153505280nat, 6249428030405832548725047059441552147257537355977380nat, 0nat, 12498856060811665097450094118883104294515074711954760nat);
    lemma_pow_mod_bit(2, 4457096299575194302523010nat, 44140943745558712684180415615833599051864440750596559nat, 2228548149787597151261505nat, 0nat, 12498856060811665097450094118883104294515074711954760nat, 3539149587045403264951734718305035569662443460380324nat, 16992230018903819468196478317566775614811976260952484nat, 0nat, 16992230018903819468196478317566775614811976260952484nat);
    lemma_pow_mod_bit(2, 8914192599150388605046021nat, 44140943745558712684180415615833599051864440750596559nat, 4457096299575194302523010nat, 1nat, 16992230018903819468196478317566775614811976260952484nat, 6541225821534175063771493379018038419489155745998776nat, 8321114223791419828621439039024009129705767621958472nat, 0nat, 16642228447582839657242878078048018259411535243916944nat);
    lemma_pow_mod_bit(2, 17828385198300777210092042nat, 44140943745558712684180415615833599051864440750596559nat, 8914192599150388605046021nat, 0nat, 16642228447582839657242878078048018259411535243916944nat, 6274532082912308212927492824162669359625843960131003nat, 1928729360089028334751758916160680969414971529280459nat, 0nat, 1928729360089028334751758916160680969414971529280459nat);
    lemma_pow_mod_bit(2, 35656770396601554420184085nat, 44140943745558712684180415615833599051864440750596559nat, 17828385198300777210092042nat, 1nat, 1928729360089028334751758916160680969414971529280459nat, 84275428407525249558008846998573160628704666026512nat, 27288936697992764159678277259336682835861158169278473nat, 1nat, 10436929650426815635176138902839766619857875587960387nat);
    lemma_pow_mod_bit(2, 71313540793203108840368171nat, 44140943745558712684180415615833599051864440750596559nat, 35656770396601554420184085nat, 1nat, 10436929650426815635176138902839766619857875587960387nat, 2467765554716271055542777807895814668033569857742931nat, 29485047535672884926479513624379150873711063166015340nat, 1nat, 14829151325787057168778611632924702695557685581434121nat);
    lemma_pow_mod_bit(2, 142627081586406217680736342nat, 44140943745558712684180415615833599051864440750596559nat, 71313540793203108840368171nat, 0nat, 14829151325787057168778611632924702695557685581434121nat, 4981853816055255490603805968338835242549341208624292nat, 4187286903880339461976965490048455729718632364031413nat, 0nat, 4187286903880339461976965490048455729718632364031413nat);
    lemma_pow_mod_bit(2, 285254163172812435361472684nat, 44140943745558712684180415615833599051864440750596559nat, 142627081586406217680736342nat, 0nat, 4187286903880339461976965490048455729718632364031413nat, 397213338175895656262455562081480419014621240674457nat, 13954183099724492702187575639187581722745263387383106nat, 0nat, 13954183099724492702187575639187581722745263387383106nat);
    lemma_pow_mod_bit(2, 570508326345624870722945369nat, 44140943745558712684180415615833599051864440750596559nat, 285254163172812435361472684nat, 1nat, 13954183099724492702187575639187581722745263387383106nat, 4411306362253039287018482977353702849523444619913792nat, 38298294026446629303794083033769908813628591662365508nat, 1nat, 32455644307334545923407750451706218575392742574134457nat);
    lemma_pow_mod_bit(2, 1141016652691249741445890739nat, 44140943745558712684180415615833599051864440750596559nat, 570508326345624870722945369nat, 1nat, 32455644307334545923407750451706218575392742574134457nat, 23863759086714205737335819880755716349639864018149808nat, 23139178482586982611389964254495210860173883283374177nat, 1nat, 2137413219615252538599512893156822668483325816151795nat);
    lemma_pow_mod_bit(2, 2282033305382499482891781479nat, 44140943745558712684180415615833599051864440750596559nat, 1141016652691249741445890739nat, 1nat, 2137413219615252538599512893156822668483325816151795nat, 103498812751272626419659690044050628055476758139858nat, 2819541911408276536046416029491226026126729826173403nat, 0nat, 5639083822816553072092832058982452052253459652346806nat);
    lemma_pow_mod_bit(2, 4564066610764998965783562958nat, 44140943745558712684180415615833599051864440750596559nat, 2282033305382499482891781479nat, 0nat, 5639083822816553072092832058982452052253459652346806nat, 720402956131876238674674263859951427839962881697928nat, 21204467944980772472402748474929325361189754464171884nat, 0nat, 21204467944980772472402748474929325361189754464171884nat);
    lemma_pow_mod_bit(2, 9128133221529997931567125917nat, 44140943745558712684180415615833599051864440750596559nat, 4564066610764998965783562958nat, 1nat, 21204467944980772472402748474929325361189754464171884nat, 10186222193651150548057507745033189182660971892953897nat, 25741852650417954662588855545114928626639018462269033nat, 1nat, 7342761555277196640997295474396258201413596173941507nat);
    lemma_pow_mod_bit(2, 18256266443059995863134251834nat, 44140943745558712684180415615833599051864440750596559nat, 9128133221529997931567125917nat, 0nat, 7342761555277196640997295474396258201413596173941507nat, 1221454338820783036935283803869791727559537641653771nat, 42465561892409593270026319139033219939054456275457060nat, 0nat, 42465561892409593270026319139033219939054456275457060nat);
    lemma_pow_mod_bit(2, 36512532886119991726268503669nat, 44140943745558712684180415615833599051864440750596559nat, 18256266443059995863134251834nat, 1nat, 42465561892409593270026319139033219939054456275457060nat, 40853769625610081461466348460942871704566270219182150nat, 31153677812361598102385090631056258853467014319621750nat, 1nat, 18166411879164483520589765646278918655069587888646941nat);
    lemma_pow_mod_bit(2, 73025065772239983452537007339nat, 44140943745558712684180415615833599051864440750596559nat, 36512532886119991726268503669nat, 1nat, 18166411879164483520589765646278918655069587888646941nat, 7476471786959779733305267763861442017914068787686015nat, 18183317643382488051565117426944299595527095317235096nat, 0nat, 36366635286764976103130234853888599191054190634470192nat);
}

/// Square-and-multiply for `2^44140943745558712684180415615833599051864440750596558 mod 44140943745558712684180415615833599051864440750596559`, up to the exponent `4785770710449519555545465312999808`.
proof fn pow_q1_full_6()
    requires
        pow_mod(2, 73025065772239983452537007339nat, 44140943745558712684180415615833599051864440750596559nat) == 36366635286764976103130234853888599191054190634470192nat,
    ensures
        pow_mod(2, 4785770710449519555545465312999808nat, 44140943745558712684180415615833599051864440750596559nat) == 32208660265376074361743849891845980211799355652304091nat,
{
    lemma_pow_mod_bit(2, 146050131544479966905074014678nat, 44140943745558712684180415615833599051864440750596559nat, 73025065772239983452537007339nat, 0nat, 36366635286764976103130234853888599191054190634470192nat, 29961574217897130376207788844318233616170468029262303nat, 20552948825866165440158410973624723607572268596301487nat, 0nat, 20552948825866165440158410973624723607572268596301487nat);
    lemma_pow_mod_bit(2, 292100263088959933810148029357nat, 44140943745558712684180415615833599051864440750596559nat, 146050131544479966905074014678nat, 1nat, 20552948825866165440158410973624723607572268596301487nat, 9569883867314821341821466387452119279566505811836173nat, 4024839413299319750253745784818086333894642472882462nat, 0nat, 8049678826598639500507491569636172667789284945764924nat);
    lemma_pow_mod_bit(2, 584200526177919867620296058715nat, 44140943745558712684180415615833599051864440750596559nat, 292100263088959933810148029357nat, 1nat, 8049678826598639500507491569636172667789284945764924nat, 1467964291495469008578640121035359328946202366493109nat, 15645311385792756799736356797168176300468778956113845nat, 0nat, 31290622771585513599472713594336352600937557912227690nat);
    lemma_pow_mod_bit(2, 1168401052355839735240592117431nat, 44140943745558712684180415615833599051864440750596559nat, 584200526177919867620296058715nat, 1nat, 31290622771585513599472713594336352600937557912227690nat, 22181289985042047739117679888961299802540762038240627nat, 29238691784486905558274924575818111597120897362533607nat, 1nat, 14336439823415098432369433535802624142377353974470655nat);
    lemma_pow_mod_bit(2, 2336802104711679470481184234863nat, 44140943745558712684180415615833599051864440750596559nat, 1168401052355839735240592117431nat, 1nat, 14336439823415098432369433535802624142377353974470655nat, 4656300689789449912111319784336123962097173929942653nat, 35200545691364576529762332087364347714346705046997998nat, 1nat, 26260147637170440375344248558895096376828969343399437nat);
    lemma_pow_mod_bit(2, 4673604209423358940962368469726nat, 44140943745558712684180415615833599051864440750596559nat, 2336802104711679470481184234863nat, 0nat, 26260147637170440375344248558895096376828969343399437nat, 15622578391187492946566157528800817761548027964376640nat, 3655159752440025388422505538922450031725598767935209nat, 0nat, 3655159752440025388422505538922450031725598767935209nat);
    lemma_pow_mod_bit(2, 9347208418846717881924736939452nat, 44140943745558712684180415615833599051864440750596559nat, 4673604209423358940962368469726nat, 0nat, 3655159752440025388422505538922450031725598767935209nat, 302671209135660527997474593865586098398179674416072nat, 43804501852752010150744036405256103074524325244377433nat, 0nat, 43804501852752010150744036405256103074524325244377433nat);
    lemma_pow_mod_bit(2, 18694416837693435763849473878905nat, 44140943745558712684180415615833599051864440750596559nat, 9347208418846717881924736939452nat, 1nat, 43804501852752010150744036405256103074524325244377433nat, 43470624317152707510406913415733048939296220599353693nat, 43511813767027359235805021064529555825879060169927102nat, 1nat, 42882683788496005787429626513225512599893679589257645nat);
    lemma_pow_mod_bit(2, 37388833675386871527698947757811nat, 44140943745558712684180415615833599051864440750596559nat, 18694416837693435763849473878905nat, 1nat, 42882683788496005787429626513225512599893679589257645nat, 41660291168766944869957986351488928807064893637341107nat, 43791867683114622457545152965424157765652173367495212nat, 1nat, 43442791620670532230909890315014716479439905984393865nat);
    lemma_pow_mod_bit(2, 74777667350773743055397895515622nat, 44140943745558712684180415615833599051864440750596559nat, 37388833675386871527698947757811nat, 0nat, 43442791620670532230909890315014716479439905984393865nat, 42755681769647076825062807879361272220618948731201438nat, 10520207952488809044287739647052401328494996150986383nat, 0nat, 10520207952488809044287739647052401328494996150986383nat);
    lemma_pow_mod_bit(2, 149555334701547486110795791031244nat, 44140943745558712684180415615833599051864440750596559nat, 74777667350773743055397895515622nat, 0nat, 10520207952488809044287739647052401328494996150986383nat, 2507304238929971641282592457669179778130002535763036nat, 8935476261566834882192138771568467389230974590429565nat, 0nat, 8935476261566834882192138771568467389230974590429565nat);
    lemma_pow_mod_bit(2, 299110669403094972221591582062488nat, 44140943745558712684180415615833599051864440750596559nat, 149555334701547486110795791031244nat, 0nat, 8935476261566834882192138771568467389230974590429565nat, 1808813524270374938479094326453483669087070613870274nat, 17543042893278961896918742356924921807482085889302059nat, 0nat, 17543042893278961896918742356924921807482085889302059nat);
    lemma_pow_mod_bit(2, 598221338806189944443183164124976nat, 44140943745558712684180415615833599051864440750596559nat, 299110669403094972221591582062488nat, 0nat, 17543042893278961896918742356924921807482085889302059nat, 6972174308946235881451904769725745431329019701350473nat, 8733067631723744496574447434595495872527189454817074nat, 0nat, 8733067631723744496574447434595495872527189454817074nat);
    lemma_pow_mod_bit(2, 1196442677612379888886366328249952nat, 44140943745558712684180415615833599051864440750596559nat, 598221338806189944443183164124976nat, 0nat, 8733067631723744496574447434595495872527189454817074nat, 1727794283236968676463949413797939157380510604008383nat, 43609467628080646873628361525612963127076318914967379nat, 0nat, 43609467628080646873628361525612963127076318914967379nat);
    lemma_pow_mod_bit(2, 2392885355224759777772732656499904nat, 44140943745558712684180415615833599051864440750596559nat, 1196442677612379888886366328249952nat, 0nat, 43609467628080646873628361525612963127076318914967379nat, 43084390713688898842814591582972178525140285913170584nat, 29971654886089011136013017788364159501691375503709185nat, 0nat, 29971654886089011136013017788364159501691375503709185nat);
    lemma_pow_mod_bit(2, 4785770710449519555545465312999808nat, 44140943745558712684180415615833599051864440750596559nat, 2392885355224759777772732656499904nat, 0nat, 29971654886089011136013017788364159501691375503709185nat, 20350722489960507488189348566257760459451132888914426nat, 32208660265376074361743849891845980211799355652304091nat, 0nat, 32208660265376074361743849891845980211799355652304091nat);
}

/// Square-and-multiply for `2^44140943745558712684180415615833599051864440750596558 mod 44140943745558712684180415615833599051864440750596559`, up to the exponent `313640269280019713592227614752755464535`.
proof fn pow_q1_full_7()
    requires
        pow_mod(2, 4785770710449519555545465312999808nat, 44140943745558712684180415615833599051864440750596559nat) == 32208660265376074361743849891845980211799355652304091nat,
    ensures
        pow_mod(2, 313640269280019713592227614752755464535nat, 44140943745558712684180415615833599051864440750596559nat) == 27682572707953471688167453875209097715529212401932903nat,
{
    lemma_pow_mod_bit(2, 9571541420899039111090930625999617nat, 44140943745558712684180415615833599051864440750596559nat, 4785770710449519555545465312999808nat, 1nat, 32208660265376074361743849891845980211799355652304091nat, 23501939651999271977556933950338741974446471060614576nat, 2190638246062165467266489014657164752955415964492297nat, 0nat, 4381276492124330934532978029314329505910831928984594nat);
    lemma_pow_mod_bit(2, 19143082841798078222181861251999234nat, 44140943745558712684180415615833599051864440750596559nat, 9571541420899039111090930625999617nat, 0nat, 4381276492124330934532978029314329505910831928984594nat, 434870260388863258885422713508861917087869810798332nat, 9640827403307105937205102683713021913748314847205248nat, 0nat, 9640827403307105937205102683713021913748314847205248nat);
    lemma_pow_mod_bit(2, 38286165683596156444363722503998469nat, 44140943745558712684180415615833599051864440750596559nat, 19143082841798078222181861251999234nat, 1nat, 9640827403307105937205102683713021913748314847205248nat, 2105653960552419074765771104738861970685203135194897nat, 4830657334788456301489367068766043692404494756182081nat, 0nat, 9661314669576912602978734137532087384808989512364162nat);
    lemma_pow_mod_bit(2, 76572331367192312888727445007996939nat, 44140943745558712684180415615833599051864440750596559nat, 38286165683596156444363722503998469nat, 1nat, 9661314669576912602978734137532087384808989512364162nat, 2114612720621172731565740923356739600807401838041205nat, 33535901431592807452793929113802137385007266728748649nat, 1nat, 22930859117626902221407442611770675718150092706900739nat);
    lemma_pow_mod_bit(2, 153144662734384625777454890015993879nat, 44140943745558712684180415615833599051864440750596559nat, 76572331367192312888727445007996939nat, 1nat, 22930859117626902221407442611770675718150092706900739nat, 11912393692882001321892803265635241896790120414651977nat, 16175003906644047518445028928910762884713323679998978nat, 0nat, 32350007813288095036890057857821525769426647359997956nat);
    lemma_pow_mod_bit(2, 306289325468769251554909780031987758nat, 44140943745558712684180415615833599051864440750596559nat, 153144662734384625777454890015993879nat, 0nat, 32350007813288095036890057857821525769426647359997956nat, 23708668567492914225274568227231581724328107934391944nat, 37227157972503987790754617110441234234859041400457240nat, 0nat, 37227157972503987790754617110441234234859041400457240nat);
    lemma_pow_mod_bit(2, 612578650937538503109819560063975516nat, 44140943745558712684180415615833599051864440750596559nat, 306289325468769251554909780031987758nat, 0nat, 37227157972503987790754617110441234234859041400457240nat, 31396276860283647768010273196309156883008336156397753nat, 13516181650115550652747393195046416292268921831285673nat, 0nat, 13516181650115550652747393195046416292268921831285673nat);
    lemma_pow_mod_bit(2, 1225157301875077006219639120127951033nat, 44140943745558712684180415615833599051864440750596559nat, 612578650937538503109819560063975516nat, 1nat, 13516181650115550652747393195046416292268921831285673nat, 4138723617963007200832108878455170930828828918375642nat, 27867447713311627284651459719078248685870607380447051nat, 1nat, 11593951681064541885122503822322898319876774010297543nat);
    lemma_pow_mod_bit(2, 2450314603750154012439278240255902066nat, 44140943745558712684180415615833599051864440750596559nat, 1225157301875077006219639120127951033nat, 0nat, 11593951681064541885122503822322898319876774010297543nat, 3045238823113837418004070992013381096457855559847711nat, 31012789817762317378524749603103003182001052951210400nat, 0nat, 31012789817762317378524749603103003182001052951210400nat);
    lemma_pow_mod_bit(2, 4900629207500308024878556480511804133nat, 44140943745558712684180415615833599051864440750596559nat, 2450314603750154012439278240255902066nat, 1nat, 31012789817762317378524749603103003182001052951210400nat, 21789138397782306019371371577512344695437466739738898nat, 43643668757760444566611718373485340625970739670908018nat, 1nat, 43146393769962176449043021131137082200077038591219477nat);
    lemma_pow_mod_bit(2, 9801258415000616049757112961023608266nat, 44140943745558712684180415615833599051864440750596559nat, 4900629207500308024878556480511804133nat, 0nat, 43146393769962176449043021131137082200077038591219477nat, 42174252233561247424673692741724652235766823503807084nat, 6033020285975950678006920735467213153667841333929573nat, 0nat, 6033020285975950678006920735467213153667841333929573nat);
    lemma_pow_mod_bit(2, 19602516830001232099514225922047216533nat, 44140943745558712684180415615833599051864440750596559nat, 9801258415000616049757112961023608266nat, 1nat, 6033020285975950678006920735467213153667841333929573nat, 824570810737581875644126562178814263360809076699612nat, 5401851456208300638566988736057578676408769880127221nat, 0nat, 10803702912416601277133977472115157352817539760254442nat);
    lemma_pow_mod_bit(2, 39205033660002464199028451844094433066nat, 44140943745558712684180415615833599051864440750596559nat, 19602516830001232099514225922047216533nat, 0nat, 10803702912416601277133977472115157352817539760254442nat, 2644256935070692895901246745815442177636590237617758nat, 2886772886109767340719920932801466720928891068636642nat, 0nat, 2886772886109767340719920932801466720928891068636642nat);
    lemma_pow_mod_bit(2, 78410067320004928398056903688188866133nat, 44140943745558712684180415615833599051864440750596559nat, 39205033660002464199028451844094433066nat, 1nat, 2886772886109767340719920932801466720928891068636642nat, 188792014597943328787371097499267732867302224724626nat, 32232178647280957297825979232273502267568243626874230nat, 1nat, 20323413549003201911471542848713405483272046503151901nat);
    lemma_pow_mod_bit(2, 156820134640009856796113807376377732267nat, 44140943745558712684180415615833599051864440750596559nat, 78410067320004928398056903688188866133nat, 1nat, 20323413549003201911471542848713405483272046503151901nat, 9357324588814789215948214666591665873022461944660204nat, 17578137142941223156937591171266724207164569933275765nat, 0nat, 35156274285882446313875182342533448414329139866551530nat);
    lemma_pow_mod_bit(2, 313640269280019713592227614752755464535nat, 44140943745558712684180415615833599051864440750596559nat, 156820134640009856796113807376377732267nat, 1nat, 35156274285882446313875182342533448414329139866551530nat, 28000389588148692123203561491398966997370166213122791nat, 35911758226756092186173934745521348383696826576264731nat, 1nat, 27682572707953471688167453875209097715529212401932903nat);
}

/// Square-and-multiply for `2^44140943745558712684180415615833599051864440750596558 mod 44140943745558712684180415615833599051864440750596559`, up to the exponent `20554728687535371949980228960436582123797592`.
proof fn pow_q1_full_8()
    requires
        pow_mod(2, 313640269280019713592227614752755464535nat, 44140943745558712684180415615833599051864440750596559nat) == 27682572707953471688167453875209097715529212401932903nat,
    ensures
        pow_mod(2, 20554728687535371949980228960436582123797592nat, 44140943745558712684180415615833599051864440750596559nat) == 33463821693465709863793686672093988564881552290858620nat,
{
    lemma_pow_mod_bit(2, 627280538560039427184455229505510929070nat, 44140943745558712684180415615833599051864440750596559nat, 313640269280019713592227614752755464535nat, 0nat, 27682572707953471688167453875209097715529212401932903nat, 17360861973147889086228894619630375053981698381874563nat, 36169524257536546924669128555902423467824295556578692nat, 0nat, 36169524257536546924669128555902423467824295556578692nat);
    lemma_pow_mod_bit(2, 1254561077120078854368910459011021858141nat, 44140943745558712684180415615833599051864440750596559nat, 627280538560039427184455229505510929070nat, 1nat, 36169524257536546924669128555902423467824295556578692nat, 29637664580928994746215882141433855437273328511542897nat, 35290932776068344365701210629046216091500750119339441nat, 1nat, 26440921806577976047222005642258833131137059488082323nat);
    lemma_pow_mod_bit(2, 2509122154240157708737820918022043716283nat, 44140943745558712684180415615833599051864440750596559nat, 1254561077120078854368910459011021858141nat, 1nat, 26440921806577976047222005642258833131137059488082323nat, 15838409573014932833564456500444377249453183117337529nat, 26883582045641681432585912762226479902401265516113618nat, 1nat, 9626220345724650180991409908619360752938090281630677nat);
    lemma_pow_mod_bit(2, 5018244308480315417475641836044087432567nat, 44140943745558712684180415615833599051864440750596559nat, 2509122154240157708737820918022043716283nat, 1nat, 9626220345724650180991409908619360752938090281630677nat, 2099278136837903494475592247167718269736959613017118nat, 15398164318067415923763732567837040874753157848581367nat, 0nat, 30796328636134831847527465135674081749506315697162734nat);
    lemma_pow_mod_bit(2, 10036488616960630834951283672088174865135nat, 44140943745558712684180415615833599051864440750596559nat, 5018244308480315417475641836044087432567nat, 1nat, 30796328636134831847527465135674081749506315697162734nat, 21486034891590733750485496699149894681554375048931669nat, 28324654924630241543407602765733217623292370300827785nat, 1nat, 12508366103701770402634789915632836194720299851059011nat);
    lemma_pow_mod_bit(2, 20072977233921261669902567344176349730271nat, 44140943745558712684180415615833599051864440750596559nat, 10036488616960630834951283672088174865135nat, 1nat, 12508366103701770402634789915632836194720299851059011nat, 3544537323128206054632944338548460192630596807179873nat, 23604414585488238910397564329096621687428299036441114nat, 1nat, 3067885425417765136614713042359644322992157322285669nat);
    lemma_pow_mod_bit(2, 40145954467842523339805134688352699460542nat, 44140943745558712684180415615833599051864440750596559nat, 20072977233921261669902567344176349730271nat, 0nat, 3067885425417765136614713042359644322992157322285669nat, 213224280788915666676336441258574566740419083365684nat, 21574901275518184827754499731006742978794941893696205nat, 0nat, 21574901275518184827754499731006742978794941893696205nat);
    lemma_pow_mod_bit(2, 80291908935685046679610269376705398921084nat, 44140943745558712684180415615833599051864440750596559nat, 40145954467842523339805134688352699460542nat, 0nat, 21574901275518184827754499731006742978794941893696205nat, 10545229112714441927354373795874829550632808414521592nat, 5543335905149257669637041012279789783056084245000097nat, 0nat, 5543335905149257669637041012279789783056084245000097nat);
    lemma_pow_mod_bit(2, 160583817871370093359220538753410797842168nat, 44140943745558712684180415615833599051864440750596559nat, 80291908935685046679610269376705398921084nat, 0nat, 5543335905149257669637041012279789783056084245000097nat, 696146714362189580413305622852625904458588099010546nat, 1492095140951880041630842240309975625405436397698195nat, 0nat, 1492095140951880041630842240309975625405436397698195nat);
    lemma_pow_mod_bit(2, 321167635742740186718441077506821595684337nat, 44140943745558712684180415615833599051864440750596559nat, 160583817871370093359220538753410797842168nat, 1nat, 1492095140951880041630842240309975625405436397698195nat, 50437252145888183395878518749729485451143092126892nat, 33272443771504049040603578388947766008852349179693397nat, 1nat, 22403943797449385397026741162061932965840257608790235nat);
    lemma_pow_mod_bit(2, 642335271485480373436882155013643191368674nat, 44140943745558712684180415615833599051864440750596559nat, 321167635742740186718441077506821595684337nat, 0nat, 22403943797449385397026741162061932965840257608790235nat, 11371227143954611855015225038098261148690091392486151nat, 23017773636006043568648064577784590047640276835600816nat, 0nat, 23017773636006043568648064577784590047640276835600816nat);
    lemma_pow_mod_bit(2, 1284670542970960746873764310027286382737349nat, 44140943745558712684180415615833599051864440750596559nat, 642335271485480373436882155013643191368674nat, 1nat, 23017773636006043568648064577784590047640276835600816nat, 12002867591876602390846097499080220778072053050678036nat, 23976608867364122770096158737187106067014929261387732nat, 1nat, 3812273989169532856011901858540613082165417772178905nat);
    lemma_pow_mod_bit(2, 2569341085941921493747528620054572765474699nat, 44140943745558712684180415615833599051864440750596559nat, 1284670542970960746873764310027286382737349nat, 1nat, 3812273989169532856011901858540613082165417772178905nat, 329250617120321087495577286736827055358818009625909nat, 149280214340111304730680761836138364008635154351894nat, 0nat, 298560428680222609461361523672276728017270308703788nat);
    lemma_pow_mod_bit(2, 5138682171883842987495057240109145530949398nat, 44140943745558712684180415615833599051864440750596559nat, 2569341085941921493747528620054572765474699nat, 0nat, 298560428680222609461361523672276728017270308703788nat, 2019402441586606034996213304267675888932876556507nat, 18338838352935862938658436635243208404899182802289531nat, 0nat, 18338838352935862938658436635243208404899182802289531nat);
    lemma_pow_mod_bit(2, 10277364343767685974990114480218291061898796nat, 44140943745558712684180415615833599051864440750596559nat, 5138682171883842987495057240109145530949398nat, 0nat, 18338838352935862938658436635243208404899182802289531nat, 7619071175136572343374648298671192530353596339875251nat, 3255253721838270679495501372250829272835977662338652nat, 0nat, 3255253721838270679495501372250829272835977662338652nat);
    lemma_pow_mod_bit(2, 20554728687535371949980228960436582123797592nat, 44140943745558712684180415615833599051864440750596559nat, 10277364343767685974990114480218291061898796nat, 0nat, 3255253721838270679495501372250829272835977662338652nat, 240064572579694993044737644417006647443182006220076nat, 33463821693465709863793686672093988564881552290858620nat, 0nat, 33463821693465709863793686672093988564881552290858620nat);
}

/// Square-and-multiply for `2^44140943745558712684180415615833599051864440750596558 mod 44140943745558712684180415615833599051864440750596559`, up to the exponent `1347074699266318136113904285151171846065198997515`.
proof fn pow_q1_full_9()
    requires
        pow_mod(2, 20554728687535371949980228960436582123797592nat, 44140943745558712684180415615833599051864440750596559nat) == 33463821693465709863793686672093988564881552290858620nat,
    ensures
        pow_mod(2, 1347074699266318136113904285151171846065198997515nat, 44140943745558712684180415615833599051864440750596559nat) == 19548092760959115122224140803142797060580420625508584nat,
{
    lemma_pow_mod_bit(2, 41109457375070743899960457920873164247595184nat, 44140943745558712684180415615833599051864440750596559nat, 20554728687535371949980228960436582123797592nat, 0nat, 33463821693465709863793686672093988564881552290858620nat, 25369357048346725790244660643272405686616759641282719nat, 5581532054088501545315561078771179199865973600740479nat, 0nat, 5581532054088501545315561078771179199865973600740479nat);
    lemma_pow_mod_bit(2, 82218914750141487799920915841746328495190368nat, 44140943745558712684180415615833599051864440750596559nat, 41109457375070743899960457920873164247595184nat, 0nat, 5581532054088501545315561078771179199865973600740479nat, 705773312197294136904998229650083000987233948709437nat, 22454007764103820758919015607603393994981691206122158nat, 0nat, 22454007764103820758919015607603393994981691206122158nat);
    lemma_pow_mod_bit(2, 164437829500282975599841831683492656990380737nat, 44140943745558712684180415615833599051864440750596559nat, 82218914750141487799920915841746328495190368nat, 1nat, 22454007764103820758919015607603393994981691206122158nat, 11422104329637571716596158647059325238750568379488907nat, 39962740862639485236514331081820992948599040245705951nat, 1nat, 35784537979720257788848246547808386845333639740815343nat);
    lemma_pow_mod_bit(2, 328875659000565951199683663366985313980761474nat, 44140943745558712684180415615833599051864440750596559nat, 164437829500282975599841831683492656990380737nat, 0nat, 35784537979720257788848246547808386845333639740815343nat, 29010099235834389576405890641630730747471907327660845nat, 38038853640496257829023475258467284174092810648175294nat, 0nat, 38038853640496257829023475258467284174092810648175294nat);
    lemma_pow_mod_bit(2, 657751318001131902399367326733970627961522948nat, 44140943745558712684180415615833599051864440750596559nat, 328875659000565951199683663366985313980761474nat, 0nat, 38038853640496257829023475258467284174092810648175294nat, 32780322836407009070210648159513635768307495710646953nat, 10165556560705202427313775493064528240833309166351709nat, 0nat, 10165556560705202427313775493064528240833309166351709nat);
    lemma_pow_mod_bit(2, 1315502636002263804798734653467941255923045896nat, 44140943745558712684180415615833599051864440750596559nat, 657751318001131902399367326733970627961522948nat, 0nat, 10165556560705202427313775493064528240833309166351709nat, 2341104005038272419023736107038518203648268306737331nat, 31199088771652197693196948229972049763467615921776652nat, 0nat, 31199088771652197693196948229972049763467615921776652nat);
    lemma_pow_mod_bit(2, 2631005272004527609597469306935882511846091792nat, 44140943745558712684180415615833599051864440750596559nat, 1315502636002263804798734653467941255923045896nat, 0nat, 31199088771652197693196948229972049763467615921776652nat, 22051706592235518359851155257836146286916764978195849nat, 15262474131368521210658565575364724549167081884845513nat, 0nat, 15262474131368521210658565575364724549167081884845513nat);
    lemma_pow_mod_bit(2, 5262010544009055219194938613871765023692183584nat, 44140943745558712684180415615833599051864440750596559nat, 2631005272004527609597469306935882511846091792nat, 0nat, 15262474131368521210658565575364724549167081884845513nat, 5277257277357852410171546214358767349972314994974451nat, 15361268572706502620043537196215570707352322662719060nat, 0nat, 15361268572706502620043537196215570707352322662719060nat);
    lemma_pow_mod_bit(2, 10524021088018110438389877227743530047384367168nat, 44140943745558712684180415615833599051864440750596559nat, 5262010544009055219194938613871765023692183584nat, 0nat, 15361268572706502620043537196215570707352322662719060nat, 5345798076339559399667336196877601061238393643045711nat, 867653178528924272173789171691515045936767530975151nat, 0nat, 867653178528924272173789171691515045936767530975151nat);
    lemma_pow_mod_bit(2, 21048042176036220876779754455487060094768734336nat, 44140943745558712684180415615833599051864440750596559nat, 10524021088018110438389877227743530047384367168nat, 0nat, 867653178528924272173789171691515045936767530975151nat, 17054960187322485917111242812856157536837315503008nat, 22189529028681388936577551744767812037493369820523329nat, 0nat, 22189529028681388936577551744767812037493369820523329nat);
    lemma_pow_mod_bit(2, 42096084352072441753559508910974120189537468672nat, 44140943745558712684180415615833599051864440750596559nat, 21048042176036220876779754455487060094768734336nat, 0nat, 22189529028681388936577551744767812037493369820523329nat, 11154614213798608929383395187014578293480188744191556nat, 21024146105891036752007969781946661457139982262786437nat, 0nat, 21024146105891036752007969781946661457139982262786437nat);
    lemma_pow_mod_bit(2, 84192168704144883507119017821948240379074937344nat, 44140943745558712684180415615833599051864440750596559nat, 42096084352072441753559508910974120189537468672nat, 0nat, 21024146105891036752007969781946661457139982262786437nat, 10013712484938136806096138850008365200714805649106345nat, 9877340786907596690019103709037142684660195489088114nat, 0nat, 9877340786907596690019103709037142684660195489088114nat);
    lemma_pow_mod_bit(2, 168384337408289767014238035643896480758149874689nat, 44140943745558712684180415615833599051864440750596559nat, 84192168704144883507119017821948240379074937344nat, 1nat, 9877340786907596690019103709037142684660195489088114nat, 2210235050321611447148217120839549952617272722717566nat, 25010154791897653904634571860682534457662237087621602nat, 1nat, 5879365838236595125088728105531469863460033424646645nat);
    lemma_pow_mod_bit(2, 336768674816579534028476071287792961516299749378nat, 44140943745558712684180415615833599051864440750596559nat, 168384337408289767014238035643896480758149874689nat, 0nat, 5879365838236595125088728105531469863460033424646645nat, 783103842524923133266707853339038131718904792994423nat, 15173970268782189288134015407676564025515001899765568nat, 0nat, 15173970268782189288134015407676564025515001899765568nat);
    lemma_pow_mod_bit(2, 673537349633159068056952142575585923032599498757nat, 44140943745558712684180415615833599051864440750596559nat, 336768674816579534028476071287792961516299749378nat, 1nat, 15173970268782189288134015407676564025515001899765568nat, 5216231330374593721113461447184897864086305646560162nat, 6547274686700692416165280195381395118379605574680066nat, 0nat, 13094549373401384832330560390762790236759211149360132nat);
    lemma_pow_mod_bit(2, 1347074699266318136113904285151171846065198997515nat, 44140943745558712684180415615833599051864440750596559nat, 673537349633159068056952142575585923032599498757nat, 1nat, 13094549373401384832330560390762790236759211149360132nat, 3884539131760157586388352158730852498889018933603748nat, 9774046380479557561112070401571398530290210312754292nat, 0nat, 19548092760959115122224140803142797060580420625508584nat);
}

/// Square-and-multiply for `2^44140943745558712684180415615833599051864440750596558 mod 44140943745558712684180415615833599051864440750596559`, up to the exponent `44140943745558712684180415615833599051864440750596558`.
proof fn pow_q1_full_10()
    requires
        pow_mod(2, 1347074699266318136113904285151171846065198997515nat, 44140943745558712684180415615833599051864440750596559nat) == 19548092760959115122224140803142797060580420625508584nat,
    ensures
        pow_mod(2, 44140943745558712684180415615833599051864440750596558nat, 44140943745558712684180415615833599051864440750596559nat) == 1nat,
{
    lemma_pow_mod_bit(2, 2694149398532636272227808570302343692130397995031nat, 44140943745558712684180415615833599051864440750596559nat, 1347074699266318136113904285151171846065198997515nat, 1nat, 19548092760959115122224140803142797060580420625508584nat, 8656995029235421876789593039677096649878141935884835nat, 27282289562678333653441319461877132877755392886402291nat, 1nat, 10423635379797954622702223307920666703646345022208023nat);
    lemma_pow_mod_bit(2, 5388298797065272544455617140604687384260795990063nat, 44140943745558712684180415615833599051864440750596559nat, 2694149398532636272227808570302343692130397995031nat, 1nat, 10423635379797954622702223307920666703646345022208023nat, 2461482816436334171592202802150804196558743230746571nat, 39793515824846322256553361478893606430546907091919340nat, 1nat, 35446087904133931828926307341953613809229373433242121nat);
    lemma_pow_mod_bit(2, 10776597594130545088911234281209374768521591980126nat, 44140943745558712684180415615833599051864440750596559nat, 5388298797065272544455617140604687384260795990063nat, 0nat, 35446087904133931828926307341953613809229373433242121nat, 28463939397172638951143152352228191596645050633677502nat, 13119633390862687098887073299512457323891018891663023nat, 0nat, 13119633390862687098887073299512457323891018891663023nat);
    lemma_pow_mod_bit(2, 21553195188261090177822468562418749537043183960252nat, 44140943745558712684180415615833599051864440750596559nat, 10776597594130545088911234281209374768521591980126nat, 0nat, 13119633390862687098887073299512457323891018891663023nat, 3899435891149420297528639593945472405864737810045992nat, 19640384094053567167028630015613041890935577358557001nat, 0nat, 19640384094053567167028630015613041890935577358557001nat);
    lemma_pow_mod_bit(2, 43106390376522180355644937124837499074086367920504nat, 44140943745558712684180415615833599051864440750596559nat, 21553195188261090177822468562418749537043183960252nat, 0nat, 19640384094053567167028630015613041890935577358557001nat, 8738931582104301208919153833655884640821605094901365nat, 36970414397256558238308209070512899407161843952710966nat, 0nat, 36970414397256558238308209070512899407161843952710966nat);
    lemma_pow_mod_bit(2, 86212780753044360711289874249674998148172735841008nat, 44140943745558712684180415615833599051864440750596559nat, 43106390376522180355644937124837499074086367920504nat, 0nat, 36970414397256558238308209070512899407161843952710966nat, 30964710419051658314524913589753031776166513615118149nat, 7616194183906812577256503019175650771142967718803865nat, 0nat, 7616194183906812577256503019175650771142967718803865nat);
    lemma_pow_mod_bit(2, 172425561506088721422579748499349996296345471682017nat, 44140943745558712684180415615833599051864440750596559nat, 86212780753044360711289874249674998148172735841008nat, 1nat, 7616194183906812577256503019175650771142967718803865nat, 1314118116308112124657839594454128444186629903008767nat, 32311572649508489993137579310818934836463542081905472nat, 1nat, 20482201553458267302094743005804270621062643413214385nat);
    lemma_pow_mod_bit(2, 344851123012177442845159496998699992592690943364035nat, 44140943745558712684180415615833599051864440750596559nat, 172425561506088721422579748499349996296345471682017nat, 1nat, 20482201553458267302094743005804270621062643413214385nat, 9504114431597280046276060838524903003474112919910567nat, 7072778066158859299695774775212391707385443792989272nat, 0nat, 14145556132317718599391549550424783414770887585978544nat);
    lemma_pow_mod_bit(2, 689702246024354885690318993997399985185381886728071nat, 44140943745558712684180415615833599051864440750596559nat, 344851123012177442845159496998699992592690943364035nat, 1nat, 14145556132317718599391549550424783414770887585978544nat, 4533132763222452828278601964098138297295996491544929nat, 7167635846896411520883932823770446810613453727060625nat, 0nat, 14335271693792823041767865647540893621226907454121250nat);
    lemma_pow_mod_bit(2, 1379404492048709771380637987994799970370763773456142nat, 44140943745558712684180415615833599051864440750596559nat, 689702246024354885690318993997399985185381886728071nat, 0nat, 14335271693792823041767865647540893621226907454121250nat, 4655541932211958041741094834964147874593853977803479nat, 28675178106870143419420701721235047100499095985933739nat, 0nat, 28675178106870143419420701721235047100499095985933739nat);
    lemma_pow_mod_bit(2, 2758808984097419542761275975989599940741527546912284nat, 44140943745558712684180415615833599051864440750596559nat, 1379404492048709771380637987994799970370763773456142nat, 0nat, 28675178106870143419420701721235047100499095985933739nat, 18628188925921139180207186096934838383301631099202997nat, 9782400233063365805938372207221110723121910507832798nat, 0nat, 9782400233063365805938372207221110723121910507832798nat);
    lemma_pow_mod_bit(2, 5517617968194839085522551951979199881483055093824569nat, 44140943745558712684180415615833599051864440750596559nat, 2758808984097419542761275975989599940741527546912284nat, 1nat, 9782400233063365805938372207221110723121910507832798nat, 2167949894126735385096360249423865897115278782164111nat, 16433019990187676454637118138331217073371578434614755nat, 0nat, 32866039980375352909274236276662434146743156869229510nat);
    lemma_pow_mod_bit(2, 11035235936389678171045103903958399762966110187649139nat, 44140943745558712684180415615833599051864440750596559nat, 5517617968194839085522551951979199881483055093824569nat, 1nat, 32866039980375352909274236276662434146743156869229510nat, 24471080415001644066509598974774030117061648264509359nat, 15881394441047444656803246807104348769524054366144419nat, 0nat, 31762788882094889313606493614208697539048108732288838nat);
    lemma_pow_mod_bit(2, 22070471872779356342090207807916799525932220375298279nat, 44140943745558712684180415615833599051864440750596559nat, 11035235936389678171045103903958399762966110187649139nat, 1nat, 31762788882094889313606493614208697539048108732288838nat, 22855758666692297430870062306858763691311815327809796nat, 22070471872779356342090207807916799525932220375298280nat, 1nat, 1nat);
    lemma_pow_mod_bit(2, 44140943745558712684180415615833599051864440750596558nat, 44140943745558712684180415615833599051864440750596559nat, 22070471872779356342090207807916799525932220375298279nat, 0nat, 1nat, 0nat, 1nat, 0nat, 1nat);
}

/// Square-and-multiply for `2^20076121962250616642 mod 44140943745558712684180415615833599051864440750596559`, up to the exponent `35662`.
proof fn pow_q1_part0_0()
    ensures
        pow_mod(2, 35662nat, 44140943745558712684180415615833599051864440750596559nat) == 29017434165187385220919549392817740956260308191440119nat,
{
    lemma_pow_mod_zero(2, 44140943745558712684180415615833599051864440750596559nat);
    lemma_pow_mod_bit(2, 1nat, 44140943745558712684180415615833599051864440750596559nat, 0nat, 1nat, 1nat, 0nat, 1nat, 0nat, 2nat);
    lemma_pow_mod_bit(2, 2nat, 44140943745558712684180415615833599051864440750596559nat, 1nat, 0nat, 2nat, 0nat, 4nat, 0nat, 4nat);
    lemma_pow_mod_bit(2, 4nat, 44140943745558712684180415615833599051864440750596559nat, 2nat, 0nat, 4nat, 0nat, 16nat, 0nat, 16nat);
    lemma_pow_mod_bit(2, 8nat, 44140943745558712684180415615833599051864440750596559nat, 4nat, 0nat, 16nat, 0nat, 256nat, 0nat, 256nat);
    lemma_pow_mod_bit(2, 17nat, 44140943745558712684180415615833599051864440750596559nat, 8nat, 1nat, 256nat, 0nat, 65536nat, 0nat, 131072nat);
    lemma_pow_mod_bit(2, 34nat, 44140943745558712684180415615833599051864440750596559nat, 17nat, 0nat, 131072nat, 0nat, 17179869184nat, 0nat, 17179869184nat);
    lemma_pow_mod_bit(2, 69nat, 44140943745558712684180415615833599051864440750596559nat, 34nat, 1nat, 17179869184nat, 0nat, 295147905179352825856nat, 0nat, 590295810358705651712nat);
    lemma_pow_mod_bit(2, 139nat, 44140943745558712684180415615833599051864440750596559nat, 69nat, 1nat, 590295810358705651712nat, 0nat, 348449143727040986586495598010130648530944nat, 0nat, 696898287454081973172991196020261297061888nat);
    lemma_pow_mod_bit(2, 278nat, 44140943745558712684180415615833599051864440750596559nat, 139nat, 0nat, 696898287454081973172991196020261297061888nat, 11002647017607052961336012675481nat, 26484566247335227610508249369500159431118664879854665nat, 0nat, 26484566247335227610508249369500159431118664879854665nat);
    lemma_pow_mod_bit(2, 557nat, 44140943745558712684180415615833599051864440750596559nat, 278nat, 1nat, 26484566247335227610508249369500159431118664879854665nat, 15890739748401136566304949621700095658671199185610836nat, 33547117246624621639977115868033535463884415707548901nat, 1nat, 22953290747690530595773816120233471875904390664501243nat);
    lemma_pow_mod_bit(2, 1114nat, 44140943745558712684180415615833599051864440750596559nat, 557nat, 0nat, 22953290747690530595773816120233471875904390664501243nat, 11935711188799075909802384382521405567316421512119983nat, 7345053039260969926760567926850096267580085913606552nat, 0nat, 7345053039260969926760567926850096267580085913606552nat);
    lemma_pow_mod_bit(2, 2228nat, 44140943745558712684180415615833599051864440750596559nat, 1114nat, 0nat, 7345053039260969926760567926850096267580085913606552nat, 1222216825733025418462152845285520566765215093709484nat, 1348144935070754984466805837985641395528610621263148nat, 0nat, 1348144935070754984466805837985641395528610621263148nat);
    lemma_pow_mod_bit(2, 4457nat, 44140943745558712684180415615833599051864440750596559nat, 2228nat, 1nat, 1348144935070754984466805837985641395528610621263148nat, 41174805333422426282707917745929974029349212559149nat, 31953737428538759641935027888620074017578642239501613nat, 1nat, 19766531111518806599689640161406548983292843728406667nat);
    lemma_pow_mod_bit(2, 8915nat, 44140943745558712684180415615833599051864440750596559nat, 4457nat, 1nat, 19766531111518806599689640161406548983292843728406667nat, 8851549582510980699050824143694517946770930068573268nat, 22804769993516775815532252606880555025254185529864077nat, 1nat, 1468596241474838946884089597927510998643930309131595nat);
    lemma_pow_mod_bit(2, 17831nat, 44140943745558712684180415615833599051864440750596559nat, 8915nat, 1nat, 1468596241474838946884089597927510998643930309131595nat, 48861096693045436645293164042495594505306977232548nat, 7694602725714909890154423623435728355356481155641693nat, 0nat, 15389205451429819780308847246871456710712962311283386nat);
    lemma_pow_mod_bit(2, 35662nat, 44140943745558712684180415615833599051864440750596559nat, 17831nat, 0nat, 15389205451429819780308847246871456710712962311283386nat, 5365260103894945491708914832089253069382397769172803nat, 29017434165187385220919549392817740956260308191440119nat, 0nat, 29017434165187385220919549392817740956260308191440119nat);
}

/// Square-and-multiply for `2^20076121962250616642 mod 44140943745558712684180415615833599051864440750596559`, up to the exponent `2337168199`.
proof fn pow_q1_part0_1()
    requires
        pow_mod(2, 35662nat, 44140943745558712684180415615833599051864440750596559nat) == 29017434165187385220919549392817740956260308191440119nat,
    ensures
        pow_mod(2, 2337168199nat, 44140943745558712684180415615833599051864440750596559nat) == 43647715390227461683919124080618159360273645703697318nat,
{
    lemma_pow_mod_bit(2, 71324nat, 44140943745558712684180415615833599051864440750596559nat, 35662nat, 0nat, 29017434165187385220919549392817740956260308191440119nat, 19075520686294886749329746659519900675759257379227333nat, 35460896632943676328255099985612524793660708934187014nat, 0nat, 35460896632943676328255099985612524793660708934187014nat);
    lemma_pow_mod_bit(2, 142649nat, 44140943745558712684180415615833599051864440750596559nat, 71324nat, 1nat, 35460896632943676328255099985612524793660708934187014nat, 28487727794420760317237469021175208435538274306160400nat, 11939099279491911767239253132485191040819092384172596nat, 0nat, 23878198558983823534478506264970382081638184768345192nat);
    lemma_pow_mod_bit(2, 285298nat, 44140943745558712684180415615833599051864440750596559nat, 142649nat, 0nat, 23878198558983823534478506264970382081638184768345192nat, 12916995379819563429893430261265914009796893906775639nat, 14224273134338251390701177569624624332685968651090663nat, 0nat, 14224273134338251390701177569624624332685968651090663nat);
    lemma_pow_mod_bit(2, 570597nat, 44140943745558712684180415615833599051864440750596559nat, 285298nat, 1nat, 14224273134338251390701177569624624332685968651090663nat, 4583724973497300493913685983091723615227417253183151nat, 36767381917816063703663403457944032639005674508402160nat, 1nat, 29393820090073414723146391300054466226146908266207761nat);
    lemma_pow_mod_bit(2, 1141195nat, 44140943745558712684180415615833599051864440750596559nat, 570597nat, 1nat, 29393820090073414723146391300054466226146908266207761nat, 19573588287281134894485037975262984412986400134812653nat, 17674464403935986762167689383391483534625714565172094nat, 0nat, 35348928807871973524335378766782967069251429130344188nat);
    lemma_pow_mod_bit(2, 2282390nat, 44140943745558712684180415615833599051864440750596559nat, 1141195nat, 0nat, 35348928807871973524335378766782967069251429130344188nat, 28308111740128473372811308807876405482367238096084356nat, 41799098515384338023549375354655766172723642358048340nat, 0nat, 41799098515384338023549375354655766172723642358048340nat);
    lemma_pow_mod_bit(2, 4564781nat, 44140943745558712684180415615833599051864440750596559nat, 2282390nat, 1nat, 41799098515384338023549375354655766172723642358048340nat, 39581497096436638195790794037806725821256079829303064nat, 5742611013366243875204814654607173139558826570198824nat, 0nat, 11485222026732487750409629309214346279117653140397648nat);
    lemma_pow_mod_bit(2, 9129563nat, 44140943745558712684180415615833599051864440750596559nat, 4564781nat, 1nat, 11485222026732487750409629309214346279117653140397648nat, 2988389323157899385913517536462765785878940613555630nat, 16674564102179183921807096104288396238774382930854734nat, 0nat, 33349128204358367843614192208576792477548765861709468nat);
    lemma_pow_mod_bit(2, 18259126nat, 44140943745558712684180415615833599051864440750596559nat, 9129563nat, 0nat, 33349128204358367843614192208576792477548765861709468nat, 25195753819890458454248210292677706000513978565660724nat, 41264355447440491547967761014630004983917992244994308nat, 0nat, 41264355447440491547967761014630004983917992244994308nat);
    lemma_pow_mod_bit(2, 36518253nat, 44140943745558712684180415615833599051864440750596559nat, 18259126nat, 1nat, 41264355447440491547967761014630004983917992244994308nat, 38575229390378302602988498831962331398105487243314287nat, 23241739268913096512844328502288953134496903374660431nat, 1nat, 2342534792267480341508241388744307217129365998724303nat);
    lemma_pow_mod_bit(2, 73036506nat, 44140943745558712684180415615833599051864440750596559nat, 36518253nat, 0nat, 2342534792267480341508241388744307217129365998724303nat, 124316989791043485478027966835564193988974469392373nat, 38291946946997770557356446148992523151784537408191302nat, 0nat, 38291946946997770557356446148992523151784537408191302nat);
    lemma_pow_mod_bit(2, 146073012nat, 44140943745558712684180415615833599051864440750596559nat, 73036506nat, 0nat, 38291946946997770557356446148992523151784537408191302nat, 33217984858767830405086794080013030134426818668759112nat, 28100124777301705066854220127183614360749656761359596nat, 0nat, 28100124777301705066854220127183614360749656761359596nat);
    lemma_pow_mod_bit(2, 292146024nat, 44140943745558712684180415615833599051864440750596559nat, 146073012nat, 0nat, 28100124777301705066854220127183614360749656761359596nat, 17888539426150655037363262127777560959979329051807754nat, 35303455498945618745271070310411042031982993539364730nat, 0nat, 35303455498945618745271070310411042031982993539364730nat);
    lemma_pow_mod_bit(2, 584292049nat, 44140943745558712684180415615833599051864440750596559nat, 292146024nat, 1nat, 35303455498945618745271070310411042031982993539364730nat, 28235326760348997866343923247079003294217441327175111nat, 14993777560377213753245059973625807087073220460929851nat, 0nat, 29987555120754427506490119947251614174146440921859702nat);
    lemma_pow_mod_bit(2, 1168584099nat, 44140943745558712684180415615833599051864440750596559nat, 584292049nat, 1nat, 29987555120754427506490119947251614174146440921859702nat, 20372320703060736366850216839505089957491609201436172nat, 14962681944654745578345924415315807020852661610196656nat, 0nat, 29925363889309491156691848830631614041705323220393312nat);
    lemma_pow_mod_bit(2, 2337168199nat, 44140943745558712684180415615833599051864440750596559nat, 1168584099nat, 1nat, 29925363889309491156691848830631614041705323220393312nat, 20287907958417697029193982514411636939819883157499715nat, 21823857695113730841959562040309079680136822851848659nat, 0nat, 43647715390227461683919124080618159360273645703697318nat);
}

/// Square-and-multiply for `2^20076121962250616642 mod 44140943745558712684180415615833599051864440750596559`, up to the exponent `153168655107502`.
proof fn pow_q1_part0_2()
    requires
        pow_mod(2, 2337168199nat, 44140943745558712684180415615833599051864440750596559nat) == 43647715390227461683919124080618159360273645703697318nat,
    ensures
        pow_mod(2, 153168655107502nat, 44140943745558712684180415615833599051864440750596559nat) == 20508355610397943424217276188847133211551074897421198nat,
{
    lemma_pow_mod_bit(2, 4674336398nat, 44140943745558712684180415615833599051864440750596559nat, 2337168199nat, 0nat, 43647715390227461683919124080618159360273645703697318nat, 43159998340044217359130400873493822148938963893450002nat, 18099107751910067437822067901945571139180441220650006nat, 0nat, 18099107751910067437822067901945571139180441220650006nat);
    lemma_pow_mod_bit(2, 9348672797nat, 44140943745558712684180415615833599051864440750596559nat, 4674336398nat, 1nat, 18099107751910067437822067901945571139180441220650006nat, 7421175752460223938355053284641953141726072946034241nat, 9819783515666244695919637129794258527985383157023317nat, 0nat, 19639567031332489391839274259588517055970766314046634nat);
    lemma_pow_mod_bit(2, 18697345594nat, 44140943745558712684180415615833599051864440750596559nat, 9348672797nat, 0nat, 19639567031332489391839274259588517055970766314046634nat, 8738204497882103555088571898322786938319974726734002nat, 8364160672316472162749068915042645114486189117230838nat, 0nat, 8364160672316472162749068915042645114486189117230838nat);
    lemma_pow_mod_bit(2, 37394691188nat, 44140943745558712684180415615833599051864440750596559nat, 18697345594nat, 0nat, 8364160672316472162749068915042645114486189117230838nat, 1584904576476450080686970224969184201041324785905644nat, 20219176970968641659191679168608710045534285293103248nat, 0nat, 20219176970968641659191679168608710045534285293103248nat);
    lemma_pow_mod_bit(2, 74789382376nat, 44140943745558712684180415615833599051864440750596559nat, 37394691188nat, 0nat, 20219176970968641659191679168608710045534285293103248nat, 9261585337637508410562480374571391563299929756296968nat, 34451553476038015574245508489001810064588741225216392nat, 0nat, 34451553476038015574245508489001810064588741225216392nat);
    lemma_pow_mod_bit(2, 149578764753nat, 44140943745558712684180415615833599051864440750596559nat, 74789382376nat, 1nat, 34451553476038015574245508489001810064588741225216392nat, 26889083834591307774715650930133966437840606856290495nat, 40565143726507642577420865325929188577106114174090959nat, 1nat, 36989343707456572470661315036024778102347787597585359nat);
    lemma_pow_mod_bit(2, 299157529506nat, 44140943745558712684180415615833599051864440750596559nat, 149578764753nat, 0nat, 36989343707456572470661315036024778102347787597585359nat, 30996427167373855090089292471885890374410539704267358nat, 23843801987231074630520292151266244543303850760337759nat, 0nat, 23843801987231074630520292151266244543303850760337759nat);
    lemma_pow_mod_bit(2, 598315059013nat, 44140943745558712684180415615833599051864440750596559nat, 299157529506nat, 1nat, 23843801987231074630520292151266244543303850760337759nat, 12879808290539494249682970161435454058034939217236420nat, 13135057797175781512745920899650559159121197419663301nat, 0nat, 26270115594351563025491841799301118318242394839326602nat);
    lemma_pow_mod_bit(2, 1196630118027nat, 44140943745558712684180415615833599051864440750596559nat, 598315059013nat, 1nat, 26270115594351563025491841799301118318242394839326602nat, 15634440833858025956637212108969754032415497339740128nat, 38310841591122807604454141784936692795468606793846852nat, 1nat, 32480739436686902524727867954039786539072772837097145nat);
    lemma_pow_mod_bit(2, 2393260236054nat, 44140943745558712684180415615833599051864440750596559nat, 1196630118027nat, 0nat, 32480739436686902524727867954039786539072772837097145nat, 23900676896154889644426770823914513376314342339807248nat, 29689022454442763390604050786329519389535061095091393nat, 0nat, 29689022454442763390604050786329519389535061095091393nat);
    lemma_pow_mod_bit(2, 4786520472109nat, 44140943745558712684180415615833599051864440750596559nat, 2393260236054nat, 1nat, 29689022454442763390604050786329519389535061095091393nat, 19968717918250069590109409536661477459256617509709649nat, 22234048499446029015066418258910401845953547394182658nat, 1nat, 327153253333345345952420901987204640042654037768757nat);
    lemma_pow_mod_bit(2, 9573040944218nat, 44140943745558712684180415615833599051864440750596559nat, 4786520472109nat, 0nat, 327153253333345345952420901987204640042654037768757nat, 2424715968547022694506434799703259584809113786693nat, 33334584143890863450893771491124811337171583779535662nat, 0nat, 33334584143890863450893771491124811337171583779535662nat);
    lemma_pow_mod_bit(2, 19146081888437nat, 44140943745558712684180415615833599051864440750596559nat, 9573040944218nat, 1nat, 33334584143890863450893771491124811337171583779535662nat, 25173782111487912375236299882150096568110300749403571nat, 43960621085474650759973222398897473511789058634866055nat, 1nat, 43780298425390588835766029181961347971713676519135551nat);
    lemma_pow_mod_bit(2, 38292163776875nat, 44140943745558712684180415615833599051864440750596559nat, 19146081888437nat, 1nat, 43780298425390588835766029181961347971713676519135551nat, 43422599690318354677958035805128375849828309216712820nat, 28029670142946988359987329695578940789519244328887221nat, 1nat, 11918396540335264035794243775324282527174047907177883nat);
    lemma_pow_mod_bit(2, 76584327553751nat, 44140943745558712684180415615833599051864440750596559nat, 38292163776875nat, 1nat, 11918396540335264035794243775324282527174047907177883nat, 3218059335375400014102849133701641034529504175329795nat, 41203773817071891315766928595865101032008236587186284nat, 1nat, 38266603888585069947353441575896603012152032423776009nat);
    lemma_pow_mod_bit(2, 153168655107502nat, 44140943745558712684180415615833599051864440750596559nat, 76584327553751nat, 0nat, 38266603888585069947353441575896603012152032423776009nat, 33174029572333495772683047326151698192311879024453837nat, 20508355610397943424217276188847133211551074897421198nat, 0nat, 20508355610397943424217276188847133211551074897421198nat);
}

/// Square-and-multiply for `2^20076121962250616642 mod 44140943745558712684180415615833599051864440750596559`, up to the exponent `10038060981125308321`.
proof fn pow_q1_part0_3()
    requires
        pow_mod(2, 153168655107502nat, 44140943745558712684180415615833599051864440750596559nat) == 20508355610397943424217276188847133211551074897421198nat,
    ensures
        pow_mod(2, 10038060981125308321nat, 44140943745558712684180415615833599051864440750596559nat) == 14601077560376409931490490610023207553854894460544182nat,
{
    lemma_pow_mod_bit(2, 306337310215005nat, 44140943745558712684180415615833599051864440750596559nat, 153168655107502nat, 1nat, 20508355610397943424217276188847133211551074897421198nat, 9528401845392333118594665764893564879140094975210767nat, 16502967227050407646821029029582621860146238609804451nat, 0nat, 33005934454100815293642058059165243720292477219608902nat);
    lemma_pow_mod_bit(2, 612674620430011nat, 44140943745558712684180415615833599051864440750596559nat, 306337310215005nat, 1nat, 33005934454100815293642058059165243720292477219608902nat, 24679846345560057777304397440433734879808031611930402nat, 16288082381098724327996754306213128306705514748958886nat, 0nat, 32576164762197448655993508612426256613411029497917772nat);
    lemma_pow_mod_bit(2, 1225349240860022nat, 44140943745558712684180415615833599051864440750596559nat, 612674620430011nat, 0nat, 32576164762197448655993508612426256613411029497917772nat, 24041319024145449128076429681409722911868084025169385nat, 20535843422363130274652069145541995818352473900297769nat, 0nat, 20535843422363130274652069145541995818352473900297769nat);
    lemma_pow_mod_bit(2, 2450698481720045nat, 44140943745558712684180415615833599051864440750596559nat, 1225349240860022nat, 1nat, 20535843422363130274652069145541995818352473900297769nat, 9553961226990008110587354505318554975741821996579868nat, 33306251018908446702950746779894482373484268176903149nat, 1nat, 22471558292258180721721077943955365695104095603209739nat);
    lemma_pow_mod_bit(2, 4901396963440091nat, 44140943745558712684180415615833599051864440750596559nat, 2450698481720045nat, 1nat, 22471558292258180721721077943955365695104095603209739nat, 11439966825203314396609171844934578331807693454577127nat, 3463704522685102182501401994781418724028104898142128nat, 0nat, 6927409045370204365002803989562837448056209796284256nat);
    lemma_pow_mod_bit(2, 9802793926880183nat, 44140943745558712684180415615833599051864440750596559nat, 4901396963440091nat, 1nat, 6927409045370204365002803989562837448056209796284256nat, 1087176485362422485424822977864185169705125490752197nat, 27360456116111918107659610436506346579363158963583413nat, 1nat, 10579968486665123531138805257179094106861877176570267nat);
    lemma_pow_mod_bit(2, 19605587853760367nat, 44140943745558712684180415615833599051864440750596559nat, 9802793926880183nat, 1nat, 10579968486665123531138805257179094106861877176570267nat, 2535870864566406904231376205152361369135269001337071nat, 1432023827255819872959885611046888182601165296712600nat, 0nat, 2864047654511639745919771222093776365202330593425200nat);
    lemma_pow_mod_bit(2, 39211175707520735nat, 44140943745558712684180415615833599051864440750596559nat, 19605587853760367nat, 1nat, 2864047654511639745919771222093776365202330593425200nat, 185831300177829911953642508497929477342639020849740nat, 14399574310631871425513014946308998391310923894995340nat, 0nat, 28799148621263742851026029892617996782621847789990680nat);
    lemma_pow_mod_bit(2, 78422351415041471nat, 44140943745558712684180415615833599051864440750596559nat, 39211175707520735nat, 1nat, 28799148621263742851026029892617996782621847789990680nat, 18789606449977349692833552250109980535845727264400309nat, 21957359997356901882215316717868175811233879352925669nat, 0nat, 43914719994713803764430633435736351622467758705851338nat);
    lemma_pow_mod_bit(2, 156844702830082942nat, 44140943745558712684180415615833599051864440750596559nat, 78422351415041471nat, 0nat, 43914719994713803764430633435736351622467758705851338nat, 43689655647839533525810795811750737438964450492707901nat, 14555208076263690199061121744784332758453674273677585nat, 0nat, 14555208076263690199061121744784332758453674273677585nat);
    lemma_pow_mod_bit(2, 313689405660165885nat, 44140943745558712684180415615833599051864440750596559nat, 156844702830082942nat, 1nat, 14555208076263690199061121744784332758453674273677585nat, 4799491450942248458595696593314476538425207749914486nat, 17563654788680246962677986442361974664070214795578551nat, 0nat, 35127309577360493925355972884723949328140429591157102nat);
    lemma_pow_mod_bit(2, 627378811320331770nat, 44140943745558712684180415615833599051864440750596559nat, 313689405660165885nat, 0nat, 35127309577360493925355972884723949328140429591157102nat, 27954270421956604156438562367500752981426628215774006nat, 35594921887105487007631837277045997425341316819793050nat, 0nat, 35594921887105487007631837277045997425341316819793050nat);
    lemma_pow_mod_bit(2, 1254757622640663540nat, 44140943745558712684180415615833599051864440750596559nat, 627378811320331770nat, 0nat, 35594921887105487007631837277045997425341316819793050nat, 28703474747900505019906979774803156538415582189761694nat, 37986583668336325778074443709861508844990072281891554nat, 0nat, 37986583668336325778074443709861508844990072281891554nat);
    lemma_pow_mod_bit(2, 2509515245281327080nat, 44140943745558712684180415615833599051864440750596559nat, 1254757622640663540nat, 0nat, 37986583668336325778074443709861508844990072281891554nat, 32690296499079792965072652690087470100578565146050515nat, 6572140313996971152245171772696609020797175217357031nat, 0nat, 6572140313996971152245171772696609020797175217357031nat);
    lemma_pow_mod_bit(2, 5019030490562654160nat, 44140943745558712684180415615833599051864440750596559nat, 2509515245281327080nat, 0nat, 6572140313996971152245171772696609020797175217357031nat, 978525256637951207865742460008982342935119651688023nat, 34842409188955224966274994266985777331206500319822104nat, 0nat, 34842409188955224966274994266985777331206500319822104nat);
    lemma_pow_mod_bit(2, 10038060981125308321nat, 44140943745558712684180415615833599051864440750596559nat, 5019030490562654160nat, 1nat, 34842409188955224966274994266985777331206500319822104nat, 27502662496035525378247394741261294148384476045579275nat, 7300538780188204965745245305011603776927447230272091nat, 0nat, 14601077560376409931490490610023207553854894460544182nat);
}

/// Square-and-multiply for `2^20076121962250616642 mod 44140943745558712684180415615833599051864440750596559`, up to the exponent `20076121962250616642`.
proof fn pow_q1_part0_4()
    requires
        pow_mod(2, 10038060981125308321nat, 44140943745558712684180415615833599051864440750596559nat) == 14601077560376409931490490610023207553854894460544182nat,
    ensures
        pow_mod(2, 20076121962250616642nat, 44140943745558712684180415615833599051864440750596559nat) == 42921973966644470157700825326698677936519197358731543nat,
{
    lemma_pow_mod_bit(2, 20076121962250616642nat, 44140943745558712684180415615833599051864440750596559nat, 10038060981125308321nat, 0nat, 14601077560376409931490490610023207553854894460544182nat, 4829789484181067550972055339271308952534330886983459nat, 42921973966644470157700825326698677936519197358731543nat, 0nat, 42921973966644470157700825326698677936519197358731543nat);
}

/// Square-and-multiply for `2^2198678800047015135107398648734598 mod 2198678800047015135107398648734599`, up to the exponent `15622552496431404272`.
proof fn pow_q2_full_0()
    ensures
        pow_mod(2, 15622552496431404272nat, 2198678800047015135107398648734599nat) == 848865525151432154526420129509826nat,
{
    lemma_pow_mod_zero(2, 2198678800047015135107398648734599nat);
    lemma_pow_mod_bit(2, 1nat, 2198678800047015135107398648734599nat, 0nat, 1nat, 1nat, 0nat, 1nat, 0nat, 2nat);
    lemma_pow_mod_bit(2, 3nat, 2198678800047015135107398648734599nat, 1nat, 1nat, 2nat, 0nat, 4nat, 0nat, 8nat);
    lemma_pow_mod_bit(2, 6nat, 2198678800047015135107398648734599nat, 3nat, 0nat, 8nat, 0nat, 64nat, 0nat, 64nat);
    lemma_pow_mod_bit(2, 13nat, 2198678800047015135107398648734599nat, 6nat, 1nat, 64nat, 0nat, 4096nat, 0nat, 8192nat);
    lemma_pow_mod_bit(2, 27nat, 2198678800047015135107398648734599nat, 13nat, 1nat, 8192nat, 0nat, 67108864nat, 0nat, 134217728nat);
    lemma_pow_mod_bit(2, 54nat, 2198678800047015135107398648734599nat, 27nat, 0nat, 134217728nat, 0nat, 18014398509481984nat, 0nat, 18014398509481984nat);
    lemma_pow_mod_bit(2, 108nat, 2198678800047015135107398648734599nat, 54nat, 0nat, 18014398509481984nat, 0nat, 324518553658426726783156020576256nat, 0nat, 324518553658426726783156020576256nat);
    lemma_pow_mod_bit(2, 216nat, 2198678800047015135107398648734599nat, 108nat, 0nat, 324518553658426726783156020576256nat, 47897988403902041672360673799185nat, 681109966218490698140140223475721nat, 0nat, 681109966218490698140140223475721nat);
    lemma_pow_mod_bit(2, 433nat, 2198678800047015135107398648734599nat, 216nat, 1nat, 681109966218490698140140223475721nat, 210995251362879184427023730404373nat, 295604493926426732664458850468414nat, 0nat, 591208987852853465328917700936828nat);
    lemma_pow_mod_bit(2, 867nat, 2198678800047015135107398648734599nat, 433nat, 1nat, 591208987852853465328917700936828nat, 158971864062418463603363769641148nat, 940426459372976418460806325021932nat, 0nat, 1880852918745952836921612650043864nat);
    lemma_pow_mod_bit(2, 1734nat, 2198678800047015135107398648734599nat, 867nat, 0nat, 1880852918745952836921612650043864nat, 1608969760330396569939901998263344nat, 1995500412837658778172979957811440nat, 0nat, 1995500412837658778172979957811440nat);
    lemma_pow_mod_bit(2, 3468nat, 2198678800047015135107398648734599nat, 1734nat, 0nat, 1995500412837658778172979957811440nat, 1811097599863207677388172537695804nat, 1462539243623110615019382802951004nat, 0nat, 1462539243623110615019382802951004nat);
    lemma_pow_mod_bit(2, 6937nat, 2198678800047015135107398648734599nat, 3468nat, 1nat, 1462539243623110615019382802951004nat, 972866541075449971096079186724662nat, 1979439774879833410527825098627478nat, 1nat, 1760200749712651685948251548520357nat);
    lemma_pow_mod_bit(2, 13875nat, 2198678800047015135107398648734599nat, 6937nat, 1nat, 1760200749712651685948251548520357nat, 1409167486957498687158880370974471nat, 1544688605218231136976243359985320nat, 1nat, 890698410389447138845088071236041nat);
    lemma_pow_mod_bit(2, 27751nat, 2198678800047015135107398648734599nat, 13875nat, 1nat, 890698410389447138845088071236041nat, 360827447034702678570245531233902nat, 185069049312782411264226148178383nat, 0nat, 370138098625564822528452296356766nat);
    lemma_pow_mod_bit(2, 55502nat, 2198678800047015135107398648734599nat, 27751nat, 0nat, 370138098625564822528452296356766nat, 62311153430514172541653489485828nat, 1859980709098999076985713410215784nat, 0nat, 1859980709098999076985713410215784nat);
    lemma_pow_mod_bit(2, 111004nat, 2198678800047015135107398648734599nat, 55502nat, 0nat, 1859980709098999076985713410215784nat, 1573457768431859668745455944567384nat, 2169306832499562715287053355015640nat, 0nat, 2169306832499562715287053355015640nat);
    lemma_pow_mod_bit(2, 222009nat, 2198678800047015135107398648734599nat, 111004nat, 1nat, 2169306832499562715287053355015640nat, 2140327242628008271300342941182892nat, 50156926591372168308164617329292nat, 0nat, 100313853182744336616329234658584nat);
    lemma_pow_mod_bit(2, 444019nat, 2198678800047015135107398648734599nat, 222009nat, 1nat, 100313853182744336616329234658584nat, 4576779991763238970399788045770nat, 194276673569486314926905450288826nat, 0nat, 388553347138972629853810900577652nat);
    lemma_pow_mod_bit(2, 888039nat, 2198678800047015135107398648734599nat, 444019nat, 1nat, 388553347138972629853810900577652nat, 68665647556009838847043626245371nat, 1675506265591566382585892650541875nat, 1nat, 1152333731136117630064386652349151nat);
    lemma_pow_mod_bit(2, 1776078nat, 2198678800047015135107398648734599nat, 888039nat, 0nat, 1152333731136117630064386652349151nat, 603941343267462191467807544989927nat, 1813164694258473668143826059036528nat, 0nat, 1813164694258473668143826059036528nat);
    lemma_pow_mod_bit(2, 3552157nat, 2198678800047015135107398648734599nat, 1776078nat, 1nat, 1813164694258473668143826059036528nat, 1495246239894215149067461854421632nat, 28366264017900802328017825849216nat, 0nat, 56732528035801604656035651698432nat);
    lemma_pow_mod_bit(2, 7104314nat, 2198678800047015135107398648734599nat, 3552157nat, 0nat, 56732528035801604656035651698432nat, 1463869910086089444654829912753nat, 1278111360704773333761529248817577nat, 0nat, 1278111360704773333761529248817577nat);
    lemma_pow_mod_bit(2, 14208628nat, 2198678800047015135107398648734599nat, 7104314nat, 0nat, 1278111360704773333761529248817577nat, 742977396392631805079908313128465nat, 933450297228861316742421446890394nat, 0nat, 933450297228861316742421446890394nat);
    lemma_pow_mod_bit(2, 28417257nat, 2198678800047015135107398648734599nat, 14208628nat, 1nat, 933450297228861316742421446890394nat, 396296838527763849733944077188561nat, 1789480516796280734441148081753197nat, 1nat, 1380282233545546333774897514771795nat);
    lemma_pow_mod_bit(2, 56834514nat, 2198678800047015135107398648734599nat, 28417257nat, 0nat, 1380282233545546333774897514771795nat, 866510853791260000328449557443029nat, 2085601033239924200882158043861654nat, 0nat, 2085601033239924200882158043861654nat);
    lemma_pow_mod_bit(2, 113669029nat, 2198678800047015135107398648734599nat, 56834514nat, 1nat, 2085601033239924200882158043861654nat, 1978338841379844815688827476151206nat, 1819040171195696521119386003839322nat, 1nat, 1439401542344377907131373358944045nat);
    lemma_pow_mod_bit(2, 227338059nat, 2198678800047015135107398648734599nat, 113669029nat, 1nat, 1439401542344377907131373358944045nat, 942328092697792084335454268689170nat, 1089894276118996134927830485369195nat, 0nat, 2179788552237992269855660970738390nat);
    lemma_pow_mod_bit(2, 454676119nat, 2198678800047015135107398648734599nat, 227338059nat, 1nat, 2179788552237992269855660970738390nat, 2161060602561047024441990032006687nat, 1399766975802675982561540563528587nat, 1nat, 600855151558336830015682478322575nat);
    lemma_pow_mod_bit(2, 909352238nat, 2198678800047015135107398648734599nat, 454676119nat, 0nat, 600855151558336830015682478322575nat, 164201752955671357875250303600353nat, 1596047665584566114592488494917178nat, 0nat, 1596047665584566114592488494917178nat);
    lemma_pow_mod_bit(2, 1818704476nat, 2198678800047015135107398648734599nat, 909352238nat, 0nat, 1596047665584566114592488494917178nat, 1158590400181905472327271071280848nat, 1312661428010936111155555735823732nat, 0nat, 1312661428010936111155555735823732nat);
    lemma_pow_mod_bit(2, 3637408953nat, 2198678800047015135107398648734599nat, 1818704476nat, 1nat, 1312661428010936111155555735823732nat, 783688833744549122032693901859649nat, 480823481079978885803117826112073nat, 0nat, 961646962159957771606235652224146nat);
    lemma_pow_mod_bit(2, 7274817906nat, 2198678800047015135107398648734599nat, 3637408953nat, 0nat, 961646962159957771606235652224146nat, 420600262217337373743760945593981nat, 1879825263725795544533746544580697nat, 0nat, 1879825263725795544533746544580697nat);
    lemma_pow_mod_bit(2, 14549635813nat, 2198678800047015135107398648734599nat, 7274817906nat, 1nat, 1879825263725795544533746544580697nat, 1607212032092269902937382664138482nat, 258673395940740090550793744267091nat, 0nat, 517346791881480181101587488534182nat);
    lemma_pow_mod_bit(2, 29099271626nat, 2198678800047015135107398648734599nat, 14549635813nat, 0nat, 517346791881480181101587488534182nat, 121731151937398205353097289459600nat, 1881004449399119960952954449708724nat, 0nat, 1881004449399119960952954449708724nat);
    lemma_pow_mod_bit(2, 58198543252nat, 2198678800047015135107398648734599nat, 29099271626nat, 0nat, 1881004449399119960952954449708724nat, 1609229023622562934462897415653741nat, 1975974159408214286181144451223317nat, 0nat, 1975974159408214286181144451223317nat);
    lemma_pow_mod_bit(2, 116397086504nat, 2198678800047015135107398648734599nat, 58198543252nat, 0nat, 1975974159408214286181144451223317nat, 1775827318917846609289838649504686nat, 1813551271055767055343625783651575nat, 0nat, 1813551271055767055343625783651575nat);
    lemma_pow_mod_bit(2, 232794173008nat, 2198678800047015135107398648734599nat, 116397086504nat, 0nat, 1813551271055767055343625783651575nat, 1495883897492284496332182718791433nat, 2051233941305966664837316948090258nat, 0nat, 2051233941305966664837316948090258nat);
    lemma_pow_mod_bit(2, 465588346017nat, 2198678800047015135107398648734599nat, 232794173008nat, 1nat, 2051233941305966664837316948090258nat, 1913676832594027886981518267857364nat, 1235395998209969748721699690769528nat, 1nat, 272113196372924362336000732804457nat);
    lemma_pow_mod_bit(2, 931176692034nat, 2198678800047015135107398648734599nat, 465588346017nat, 0nat, 272113196372924362336000732804457nat, 33677311865064762062882914588428nat, 115425581250394491736553110444477nat, 0nat, 115425581250394491736553110444477nat);
    lemma_pow_mod_bit(2, 1862353384069nat, 2198678800047015135107398648734599nat, 931176692034nat, 1nat, 115425581250394491736553110444477nat, 6059577600287285518425343301269nat, 841421414880537491047496418897398nat, 0nat, 1682842829761074982094992837794796nat);
    lemma_pow_mod_bit(2, 3724706768138nat, 2198678800047015135107398648734599nat, 1862353384069nat, 0nat, 1682842829761074982094992837794796nat, 1288028060132160086416317480595457nat, 578564042588901898701714126564873nat, 0nat, 578564042588901898701714126564873nat);
    lemma_pow_mod_bit(2, 7449413536277nat, 2198678800047015135107398648734599nat, 3724706768138nat, 1nat, 578564042588901898701714126564873nat, 152244316618532412710909898396435nat, 1352123734870252269415839074751564nat, 1nat, 505568669693489403724279500768529nat);
    lemma_pow_mod_bit(2, 14898827072554nat, 2198678800047015135107398648734599nat, 7449413536277nat, 0nat, 505568669693489403724279500768529nat, 116251486924865520024886888236236nat, 888063627618303762866081258094477nat, 0nat, 888063627618303762866081258094477nat);
    lemma_pow_mod_bit(2, 29797654145109nat, 2198678800047015135107398648734599nat, 14898827072554nat, 1nat, 888063627618303762866081258094477nat, 358695870757346256776286276796985nat, 11952903501828931999907989519514nat, 0nat, 23905807003657863999815979039028nat);
    lemma_pow_mod_bit(2, 59595308290219nat, 2198678800047015135107398648734599nat, 29797654145109nat, 1nat, 23905807003657863999815979039028nat, 259923190455976133358016551117nat, 820396783575651162822768097187701nat, 0nat, 1640793567151302325645536194375402nat);
    lemma_pow_mod_bit(2, 119190616580439nat, 2198678800047015135107398648734599nat, 59595308290219nat, 1nat, 1640793567151302325645536194375402nat, 1224464223672656007460214876631267nat, 2025246443683877980534255434554671nat, 1nat, 1851814087320740825961112220374743nat);
    lemma_pow_mod_bit(2, 238381233160879nat, 2198678800047015135107398648734599nat, 119190616580439nat, 1nat, 1851814087320740825961112220374743nat, 1559670932346380102940517299429146nat, 363606244876375606033621393093595nat, 0nat, 727212489752751212067242786187190nat);
    lemma_pow_mod_bit(2, 476762466321759nat, 2198678800047015135107398648734599nat, 238381233160879nat, 1nat, 727212489752751212067242786187190nat, 240525357883601258364502529982271nat, 448132529972665210586865665801771nat, 0nat, 896265059945330421173731331603542nat);
    lemma_pow_mod_bit(2, 953524932643518nat, 2198678800047015135107398648734599nat, 476762466321759nat, 0nat, 896265059945330421173731331603542nat, 365351709245402135745019380779459nat, 1856810019115625472296440425143823nat, 0nat, 1856810019115625472296440425143823nat);
    lemma_pow_mod_bit(2, 1907049865287036nat, 2198678800047015135107398648734599nat, 953524932643518nat, 0nat, 1856810019115625472296440425143823nat, 1568097826301160997537010438335409nat, 139014660082094346899392449939338nat, 0nat, 139014660082094346899392449939338nat);
    lemma_pow_mod_bit(2, 3814099730574073nat, 2198678800047015135107398648734599nat, 1907049865287036nat, 1nat, 139014660082094346899392449939338nat, 8789403762535482875266996391494nat, 1636898305930075935015817572777338nat, 1nat, 1075117811813136734924236496820077nat);
    lemma_pow_mod_bit(2, 7628199461148146nat, 2198678800047015135107398648734599nat, 3814099730574073nat, 0nat, 1075117811813136734924236496820077nat, 525714947200632823394412788749324nat, 1646857268372154244953816493624853nat, 0nat, 1646857268372154244953816493624853nat);
    lemma_pow_mod_bit(2, 15256398922296293nat, 2198678800047015135107398648734599nat, 7628199461148146nat, 1nat, 1646857268372154244953816493624853nat, 1233531183514481076146668686319460nat, 1338658476263465060473199830275069nat, 1nat, 478638152479914985839001011815539nat);
    lemma_pow_mod_bit(2, 30512797844592586nat, 2198678800047015135107398648734599nat, 15256398922296293nat, 0nat, 478638152479914985839001011815539nat, 104196429694272550810379775718312nat, 1796292861967247764102179889583633nat, 0nat, 1796292861967247764102179889583633nat);
    lemma_pow_mod_bit(2, 61025595689185172nat, 2198678800047015135107398648734599nat, 30512797844592586nat, 0nat, 1796292861967247764102179889583633nat, 1467548623239323921296375881278183nat, 1803795827513819360639546445525072nat, 0nat, 1803795827513819360639546445525072nat);
    lemma_pow_mod_bit(2, 122051191378370345nat, 2198678800047015135107398648734599nat, 61025595689185172nat, 1nat, 1803795827513819360639546445525072nat, 1479833883551653736962018624652224nat, 68319274023404323639769729507008nat, 0nat, 136638548046808647279539459014016nat);
    lemma_pow_mod_bit(2, 244102382756740691nat, 2198678800047015135107398648734599nat, 122051191378370345nat, 1nat, 136638548046808647279539459014016nat, 8491505358554785686174006035687nat, 1673150421928464553368903898813743nat, 1nat, 1147622043809913971630409148892887nat);
    lemma_pow_mod_bit(2, 488204765513481383nat, 2198678800047015135107398648734599nat, 244102382756740691nat, 1nat, 1147622043809913971630409148892887nat, 599012623130891808208590027277421nat, 1909040724929555473008883025005590nat, 1nat, 1619402649812095810910367401276581nat);
    lemma_pow_mod_bit(2, 976409531026962767nat, 2198678800047015135107398648734599nat, 488204765513481383nat, 1nat, 1619402649812095810910367401276581nat, 1192745817243683029450735311541002nat, 1458045594235876182332860454521363nat, 1nat, 717412388424737229558322260308127nat);
    lemma_pow_mod_bit(2, 1952819062053925534nat, 2198678800047015135107398648734599nat, 976409531026962767nat, 0nat, 717412388424737229558322260308127nat, 234086277201690600050747100762016nat, 1309371028374445142868481938056545nat, 0nat, 1309371028374445142868481938056545nat);
    lemma_pow_mod_bit(2, 3905638124107851068nat, 2198678800047015135107398648734599nat, 1952819062053925534nat, 0nat, 1309371028374445142868481938056545nat, 779764870571222716429940579099038nat, 2020579885178716810807605419121263nat, 0nat, 2020579885178716810807605419121263nat);
    lemma_pow_mod_bit(2, 7811276248215702136nat, 2198678800047015135107398648734599nat, 3905638124107851068nat, 0nat, 2020579885178716810807605419121263nat, 1856907462927979137215877162910304nat, 1074948399592954762329997360307073nat, 0nat, 1074948399592954762329997360307073nat);
    lemma_pow_mod_bit(2, 15622552496431404272nat, 2198678800047015135107398648734599nat, 7811276248215702136nat, 0nat, 1074948399592954762329997360307073nat, 525549280669257363016119674498697nat, 848865525151432154526420129509826nat, 0nat, 848865525151432154526420129509826nat);
}

/// Square-and-multiply for `2^2198678800047015135107398648734598 mod 2198678800047015135107398648734599`, up to the exponent `2198678800047015135107398648734598`.
proof fn pow_q2_full_1()
    requires
        pow_mod(2, 15622552496431404272nat, 2198678800047015135107398648734599nat) == 848865525151432154526420129509826nat,
    ensures
        pow_mod(2, 2198678800047015135107398648734598nat, 2198678800047015135107398648734599nat) == 1nat,
{
    lemma_pow_mod_bit(2, 31245104992862808545nat, 2198678800047015135107398648734599nat, 15622552496431404272nat, 1nat, 848865525151432154526420129509826nat, 327729852934957317283619730536282nat, 115624120560890529206456072329358nat, 0nat, 231248241121781058412912144658716nat);
    lemma_pow_mod_bit(2, 62490209985725617090nat, 2198678800047015135107398648734599nat, 31245104992862808545nat, 0nat, 231248241121781058412912144658716nat, 24321764971206299455321685229061nat, 360659843735399218831771003787117nat, 0nat, 360659843735399218831771003787117nat);
    lemma_pow_mod_bit(2, 124980419971451234181nat, 2198678800047015135107398648734599nat, 62490209985725617090nat, 1nat, 360659843735399218831771003787117nat, 59160766402287197078413443148169nat, 499812435846286481551557541372458nat, 0nat, 999624871692572963103115082744916nat);
    lemma_pow_mod_bit(2, 249960839942902468363nat, 2198678800047015135107398648734599nat, 124980419971451234181nat, 1nat, 999624871692572963103115082744916nat, 454477427118970557063848677870170nat, 2153525307609950366920956214835226nat, 1nat, 2108371815172885598734513780935853nat);
    lemma_pow_mod_bit(2, 499921679885804936727nat, 2198678800047015135107398648734599nat, 249960839942902468363nat, 1nat, 2108371815172885598734513780935853nat, 2021774035807483336248235537906620nat, 1444910363688299828933824075692229nat, 1nat, 691141927329584522760249502649859nat);
    lemma_pow_mod_bit(2, 999843359771609873454nat, 2198678800047015135107398648734599nat, 499921679885804936727nat, 0nat, 691141927329584522760249502649859nat, 217256455878247587515895434333953nat, 1194990080246967070363800921180034nat, 0nat, 1194990080246967070363800921180034nat);
    lemma_pow_mod_bit(2, 1999686719543219746908nat, 2198678800047015135107398648734599nat, 999843359771609873454nat, 0nat, 1194990080246967070363800921180034nat, 649481539485493440913301739785329nat, 1714883656386987323621475285343085nat, 0nat, 1714883656386987323621475285343085nat);
    lemma_pow_mod_bit(2, 3999373439086439493816nat, 2198678800047015135107398648734599nat, 1999686719543219746908nat, 0nat, 1714883656386987323621475285343085nat, 1337542325363904029877493917287121nat, 560396588915350006144068547517746nat, 0nat, 560396588915350006144068547517746nat);
    lemma_pow_mod_bit(2, 7998746878172878987633nat, 2198678800047015135107398648734599nat, 3999373439086439493816nat, 1nat, 560396588915350006144068547517746nat, 142833203677246746094512481503325nat, 691823496387806085150233723878841nat, 0nat, 1383646992775612170300467447757682nat);
    lemma_pow_mod_bit(2, 15997493756345757975267nat, 2198678800047015135107398648734599nat, 7998746878172878987633nat, 1nat, 1383646992775612170300467447757682nat, 870740646872138380665263155631396nat, 970733442748586088196313514142920nat, 0nat, 1941466885497172176392627028285840nat);
    lemma_pow_mod_bit(2, 31994987512691515950535nat, 2198678800047015135107398648734599nat, 15997493756345757975267nat, 1nat, 1941466885497172176392627028285840nat, 1714344845368723118602328579357921nat, 855254601986504961407890187096921nat, 0nat, 1710509203973009922815780374193842nat);
    lemma_pow_mod_bit(2, 63989975025383031901071nat, 2198678800047015135107398648734599nat, 31994987512691515950535nat, 1nat, 1710509203973009922815780374193842nat, 1330727224373935722159661580890263nat, 2178447322416902065754326560411427nat, 1nat, 2158215844786788996401254472088255nat);
    lemma_pow_mod_bit(2, 127979950050766063802142nat, 2198678800047015135107398648734599nat, 63989975025383031901071nat, 0nat, 2158215844786788996401254472088255nat, 2118497541609602932593729615550401nat, 254681426900067555185748951920826nat, 0nat, 254681426900067555185748951920826nat);
    lemma_pow_mod_bit(2, 255959900101532127604284nat, 2198678800047015135107398648734599nat, 127979950050766063802142nat, 0nat, 254681426900067555185748951920826nat, 29500729804857113696943755691170nat, 894173255848124660179429834731446nat, 0nat, 894173255848124660179429834731446nat);
    lemma_pow_mod_bit(2, 511919800203064255208568nat, 2198678800047015135107398648734599nat, 255959900101532127604284nat, 0nat, 894173255848124660179429834731446nat, 363648301633207555266041337203251nat, 1055303180600685969066382122269567nat, 0nat, 1055303180600685969066382122269567nat);
    lemma_pow_mod_bit(2, 1023839600406128510417136nat, 2198678800047015135107398648734599nat, 511919800203064255208568nat, 0nat, 1055303180600685969066382122269567nat, 506515459630624597947900830876847nat, 722911836798586332718270857438136nat, 0nat, 722911836798586332718270857438136nat);
    lemma_pow_mod_bit(2, 2047679200812257020834273nat, 2198678800047015135107398648734599nat, 1023839600406128510417136nat, 1nat, 722911836798586332718270857438136nat, 237688890151817966923349097450865nat, 1612682244601735275618528239176361nat, 1nat, 1026685689156455416129657829618123nat);
    lemma_pow_mod_bit(2, 4095358401624514041668546nat, 2198678800047015135107398648734599nat, 2047679200812257020834273nat, 0nat, 1026685689156455416129657829618123nat, 479416777155501726713095918233446nat, 1095340625439330104016632630844975nat, 0nat, 1095340625439330104016632630844975nat);
    lemma_pow_mod_bit(2, 8190716803249028083337093nat, 2198678800047015135107398648734599nat, 4095358401624514041668546nat, 1nat, 1095340625439330104016632630844975nat, 545678198067024484165451877981381nat, 1052690656379414472141096350249406nat, 0nat, 2105381312758828944282192700498812nat);
    lemma_pow_mod_bit(2, 16381433606498056166674186nat, 2198678800047015135107398648734599nat, 8190716803249028083337093nat, 0nat, 2105381312758828944282192700498812nat, 2016042758050564447392960266129034nat, 563381414175923878546709459163978nat, 0nat, 563381414175923878546709459163978nat);
    lemma_pow_mod_bit(2, 32762867212996112333348373nat, 2198678800047015135107398648734599nat, 16381433606498056166674186nat, 1nat, 563381414175923878546709459163978nat, 144358793031559150330029260902990nat, 58752526014624377778175097233474nat, 0nat, 117505052029248755556350194466948nat);
    lemma_pow_mod_bit(2, 65525734425992224666696746nat, 2198678800047015135107398648734599nat, 32762867212996112333348373nat, 0nat, 117505052029248755556350194466948nat, 6279879194769698837876495438617nat, 2007347322578916904988531335825121nat, 0nat, 2007347322578916904988531335825121nat);
    lemma_pow_mod_bit(2, 131051468851984449333393493nat, 2198678800047015135107398648734599nat, 65525734425992224666696746nat, 1nat, 2007347322578916904988531335825121nat, 1832665723332841184225938967422923nat, 1387148128971736432639075878851764nat, 1nat, 575617457896457730170753108968929nat);
    lemma_pow_mod_bit(2, 262102937703968898666786986nat, 2198678800047015135107398648734599nat, 131051468851984449333393493nat, 0nat, 575617457896457730170753108968929nat, 150697527000349129263049406113825nat, 1017531850567642185371511077675866nat, 0nat, 1017531850567642185371511077675866nat);
    lemma_pow_mod_bit(2, 524205875407937797333573972nat, 2198678800047015135107398648734599nat, 262102937703968898666786986nat, 0nat, 1017531850567642185371511077675866nat, 470906012691563131709311353480541nat, 636928331168496879731928138911897nat, 0nat, 636928331168496879731928138911897nat);
    lemma_pow_mod_bit(2, 1048411750815875594667147945nat, 2198678800047015135107398648734599nat, 524205875407937797333573972nat, 1nat, 636928331168496879731928138911897nat, 184509760605510765136598744211000nat, 2166805324524979619663720471749609nat, 1nat, 2134931849002944104220042294764619nat);
    lemma_pow_mod_bit(2, 2096823501631751189334295891nat, 2198678800047015135107398648734599nat, 1048411750815875594667147945nat, 1nat, 2134931849002944104220042294764619nat, 2073033132347328673898557799575296nat, 371595163221751623048566593348857nat, 0nat, 743190326443503246097133186697714nat);
    lemma_pow_mod_bit(2, 4193647003263502378668591783nat, 2198678800047015135107398648734599nat, 2096823501631751189334295891nat, 1nat, 743190326443503246097133186697714nat, 251210800462254973564350431800019nat, 1792038010530839454136238668415nat, 0nat, 3584076021061678908272477336830nat);
    lemma_pow_mod_bit(2, 8387294006527004757337183566nat, 2198678800047015135107398648734599nat, 4193647003263502378668591783nat, 0nat, 3584076021061678908272477336830nat, 5842418148787641994213217734nat, 1380638010598908542697710108270234nat, 0nat, 1380638010598908542697710108270234nat);
    lemma_pow_mod_bit(2, 16774588013054009514674367132nat, 2198678800047015135107398648734599nat, 8387294006527004757337183566nat, 0nat, 1380638010598908542697710108270234nat, 866957609392400458104682422063522nat, 2009324940384932418415239873217078nat, 0nat, 2009324940384932418415239873217078nat);
    lemma_pow_mod_bit(2, 33549176026108019029348734264nat, 2198678800047015135107398648734599nat, 16774588013054009514674367132nat, 0nat, 2009324940384932418415239873217078nat, 1836278548720522221416685879301110nat, 1666336399695470586582201314753194nat, 0nat, 1666336399695470586582201314753194nat);
    lemma_pow_mod_bit(2, 67098352052216038058697468528nat, 2198678800047015135107398648734599nat, 33549176026108019029348734264nat, 0nat, 1666336399695470586582201314753194nat, 1262884327119854173302043606396674nat, 776608977497525170799048990877910nat, 0nat, 776608977497525170799048990877910nat);
    lemma_pow_mod_bit(2, 134196704104432076117394937056nat, 2198678800047015135107398648734599nat, 67098352052216038058697468528nat, 0nat, 776608977497525170799048990877910nat, 274310874292713785334733808762633nat, 2054455435267867843840089120528933nat, 0nat, 2054455435267867843840089120528933nat);
    lemma_pow_mod_bit(2, 268393408208864152234789874113nat, 2198678800047015135107398648734599nat, 134196704104432076117394937056nat, 1nat, 2054455435267867843840089120528933nat, 1919692469591933901180671486157216nat, 2127500097419351098310394117402105nat, 1nat, 2056321394791687061513389586069611nat);
    lemma_pow_mod_bit(2, 536786816417728304469579748226nat, 2198678800047015135107398648734599nat, 268393408208864152234789874113nat, 0nat, 2056321394791687061513389586069611nat, 1923181175252888551853141157340439nat, 651063031702392719455579336542360nat, 0nat, 651063031702392719455579336542360nat);
    lemma_pow_mod_bit(2, 1073573632835456608939159496452nat, 2198678800047015135107398648734599nat, 536786816417728304469579748226nat, 0nat, 651063031702392719455579336542360nat, 192789902390675156347202714439888nat, 890450957577042904098343823084688nat, 0nat, 890450957577042904098343823084688nat);
    lemma_pow_mod_bit(2, 2147147265670913217878318992904nat, 2198678800047015135107398648734599nat, 1073573632835456608939159496452nat, 0nat, 890450957577042904098343823084688nat, 360626985548283694395430116521081nat, 801279602331373846281306862475825nat, 0nat, 801279602331373846281306862475825nat);
    lemma_pow_mod_bit(2, 4294294531341826435756637985809nat, 2198678800047015135107398648734599nat, 2147147265670913217878318992904nat, 1nat, 801279602331373846281306862475825nat, 292015823820466840369034595893611nat, 733132482151486955101101930683636nat, 0nat, 1466264964302973910202203861367272nat);
    lemma_pow_mod_bit(2, 8588589062683652871513275971619nat, 2198678800047015135107398648734599nat, 4294294531341826435756637985809nat, 1nat, 1466264964302973910202203861367272nat, 977829479001857192644815149615909nat, 566985531946377805044025543586493nat, 0nat, 1133971063892755610088051087172986nat);
    lemma_pow_mod_bit(2, 17177178125367305743026551943239nat, 2198678800047015135107398648734599nat, 8588589062683652871513275971619nat, 1nat, 1133971063892755610088051087172986nat, 584846851535827503497300542579539nat, 722750210605368177377359829386335nat, 0nat, 1445500421210736354754719658772670nat);
    lemma_pow_mod_bit(2, 34354356250734611486053103886478nat, 2198678800047015135107398648734599nat, 17177178125367305743026551943239nat, 0nat, 1445500421210736354754719658772670nat, 950330474681311478700979378261522nat, 364236930710049396637376947129222nat, 0nat, 364236930710049396637376947129222nat);
    lemma_pow_mod_bit(2, 68708712501469222972106207772956nat, 2198678800047015135107398648734599nat, 34354356250734611486053103886478nat, 0nat, 364236930710049396637376947129222nat, 60340119571008019174625970469790nat, 1983428626387548136622582109061074nat, 0nat, 1983428626387548136622582109061074nat);
    lemma_pow_mod_bit(2, 137417425002938445944212415545912nat, 2198678800047015135107398648734599nat, 68708712501469222972106207772956nat, 0nat, 1983428626387548136622582109061074nat, 1789251397652751332395083909084687nat, 267042103984792971494620984047963nat, 0nat, 267042103984792971494620984047963nat);
    lemma_pow_mod_bit(2, 274834850005876891888424831091824nat, 2198678800047015135107398648734599nat, 137417425002938445944212415545912nat, 0nat, 267042103984792971494620984047963nat, 32433789464427502203226545126000nat, 1353423997083511489862042469975369nat, 0nat, 1353423997083511489862042469975369nat);
    lemma_pow_mod_bit(2, 549669700011753783776849662183649nat, 2198678800047015135107398648734599nat, 274834850005876891888424831091824nat, 1nat, 1353423997083511489862042469975369nat, 833116922691181546452082527963473nat, 1860841398845776409397299523383834nat, 1nat, 1523003997644537683687200398033069nat);
    lemma_pow_mod_bit(2, 1099339400023507567553699324367299nat, 2198678800047015135107398648734599nat, 549669700011753783776849662183649nat, 1nat, 1523003997644537683687200398033069nat, 1054970456253839063634850344797939nat, 1099339400023507567553699324367300nat, 1nat, 1nat);
    lemma_pow_mod_bit(2, 2198678800047015135107398648734598nat, 2198678800047015135107398648734599nat, 1099339400023507567553699324367299nat, 0nat, 1nat, 0nat, 1nat, 0nat, 1nat);
}

/// Square-and-multiply for `2^5858203807094 mod 2198678800047015135107398648734599`.
proof fn pow_q2_part0()
    ensures
        pow_mod(2, 5858203807094nat, 2198678800047015135107398648734599nat) == 2044658520138743725757622012380269nat,
{
    lemma_pow_mod_zero(2, 2198678800047015135107398648734599nat);
    lemma_pow_mod_bit(2, 1nat, 2198678800047015135107398648734599nat, 0nat, 1nat, 1nat, 0nat, 1nat, 0nat, 2nat);
    lemma_pow_mod_bit(2, 2nat, 2198678800047015135107398648734599nat, 1nat, 0nat, 2nat, 0nat, 4nat, 0nat, 4nat);
    lemma_pow_mod_bit(2, 5nat, 2198678800047015135107398648734599nat, 2nat, 1nat, 4nat, 0nat, 16nat, 0nat, 32nat);
    lemma_pow_mod_bit(2, 10nat, 2198678800047015135107398648734599nat, 5nat, 0nat, 32nat, 0nat, 1024nat, 0nat, 1024nat);
    lemma_pow_mod_bit(2, 21nat, 2198678800047015135107398648734599nat, 10nat, 1nat, 1024nat, 0nat, 1048576nat, 0nat, 2097152nat);
    lemma_pow_mod_bit(2, 42nat, 2198678800047015135107398648734599nat, 21nat, 0nat, 2097152nat, 0nat, 4398046511104nat, 0nat, 4398046511104nat);
    lemma_pow_mod_bit(2, 85nat, 2198678800047015135107398648734599nat, 42nat, 1nat, 4398046511104nat, 0nat, 19342813113834066795298816nat, 0nat, 38685626227668133590597632nat);
    lemma_pow_mod_bit(2, 170nat, 2198678800047015135107398648734599nat, 85nat, 0nat, 38685626227668133590597632nat, 680671354358282225nat, 27352607834569522320003359804649nat, 0nat, 27352607834569522320003359804649nat);
    lemma_pow_mod_bit(2, 340nat, 2198678800047015135107398648734599nat, 170nat, 0nat, 27352607834569522320003359804649nat, 340279423868441233804776453526nat, 1549883128244836846965068610267127nat, 0nat, 1549883128244836846965068610267127nat);
    lemma_pow_mod_bit(2, 681nat, 2198678800047015135107398648734599nat, 340nat, 1nat, 1549883128244836846965068610267127nat, 1092536895869753968036880311453181nat, 1105507247701197558070625813524710nat, 1nat, 12335695355379981033852978314821nat);
    lemma_pow_mod_bit(2, 1363nat, 2198678800047015135107398648734599nat, 681nat, 1nat, 12335695355379981033852978314821nat, 69209463382049867539589373555nat, 1550340889446946821052105124132596nat, 1nat, 902002978846878506996811599530593nat);
    lemma_pow_mod_bit(2, 2727nat, 2198678800047015135107398648734599nat, 1363nat, 1nat, 902002978846878506996811599530593nat, 370044671295891266669369693135635nat, 58543150517732135927948718596284nat, 0nat, 117086301035464271855897437192568nat);
    lemma_pow_mod_bit(2, 5455nat, 2198678800047015135107398648734599nat, 2727nat, 1nat, 117086301035464271855897437192568nat, 6235199925461696839425277957819nat, 981726918074891857952942266555043nat, 0nat, 1963453836149783715905884533110086nat);
    lemma_pow_mod_bit(2, 10911nat, 2198678800047015135107398648734599nat, 5455nat, 1nat, 1963453836149783715905884533110086nat, 1753394341460365037082094129541468nat, 106787928080911918709809498076064nat, 0nat, 213575856161823837419618996152128nat);
    lemma_pow_mod_bit(2, 21823nat, 2198678800047015135107398648734599nat, 10911nat, 1nat, 213575856161823837419618996152128nat, 20746389301739149404803882645402nat, 124291955328007835247666193264586nat, 0nat, 248583910656015670495332386529172nat);
    lemma_pow_mod_bit(2, 43647nat, 2198678800047015135107398648734599nat, 21823nat, 1nat, 248583910656015670495332386529172nat, 28105042280717228390218803568932nat, 1425208940530423637840521937127316nat, 1nat, 651739081013832140573645225520033nat);
    lemma_pow_mod_bit(2, 87294nat, 2198678800047015135107398648734599nat, 43647nat, 0nat, 651739081013832140573645225520033nat, 193190487720021486217100461698576nat, 83344436015515210891866724090065nat, 0nat, 83344436015515210891866724090065nat);
    lemma_pow_mod_bit(2, 174588nat, 2198678800047015135107398648734599nat, 87294nat, 0nat, 83344436015515210891866724090065nat, 3159304130551390176730163475341nat, 1182664979640739902722904441680966nat, 0nat, 1182664979640739902722904441680966nat);
    lemma_pow_mod_bit(2, 349176nat, 2198678800047015135107398648734599nat, 174588nat, 0nat, 1182664979640739902722904441680966nat, 636153154357390857685046452911878nat, 573726030119214694373000170026234nat, 0nat, 573726030119214694373000170026234nat);
    lemma_pow_mod_bit(2, 698352nat, 2198678800047015135107398648734599nat, 349176nat, 0nat, 573726030119214694373000170026234nat, 149708796768912069988542714643492nat, 236047292889408497140487037643048nat, 0nat, 236047292889408497140487037643048nat);
    lemma_pow_mod_bit(2, 1396704nat, 2198678800047015135107398648734599nat, 698352nat, 0nat, 236047292889408497140487037643048nat, 25341729987675668858691458213135nat, 911193566970976041104397671972439nat, 0nat, 911193566970976041104397671972439nat);
    lemma_pow_mod_bit(2, 2793409nat, 2198678800047015135107398648734599nat, 1396704nat, 1nat, 911193566970976041104397671972439nat, 377623924181893489816045014053796nat, 1019515721941436907434578063120917nat, 0nat, 2039031443882873814869156126241834nat);
    lemma_pow_mod_bit(2, 5586818nat, 2198678800047015135107398648734599nat, 2793409nat, 0nat, 2039031443882873814869156126241834nat, 1890976175808022839365222652622579nat, 1586784890795034806046941565772735nat, 0nat, 1586784890795034806046941565772735nat);
    lemma_pow_mod_bit(2, 11173637nat, 2198678800047015135107398648734599nat, 5586818nat, 1nat, 1586784890795034806046941565772735nat, 1145181501546096534033589614952307nat, 551665293521022311752222383610332nat, 0nat, 1103330587042044623504444767220664nat);
    lemma_pow_mod_bit(2, 22347274nat, 2198678800047015135107398648734599nat, 11173637nat, 0nat, 1103330587042044623504444767220664nat, 553668132096653692767351292499223nat, 1409399065604406876305810127884319nat, 0nat, 1409399065604406876305810127884319nat);
    lemma_pow_mod_bit(2, 44694548nat, 2198678800047015135107398648734599nat, 22347274nat, 0nat, 1409399065604406876305810127884319nat, 903454259023236670132960922689235nat, 495075961742123127217178176751996nat, 0nat, 495075961742123127217178176751996nat);
    lemma_pow_mod_bit(2, 89389096nat, 2198678800047015135107398648734599nat, 44694548nat, 0nat, 495075961742123127217178176751996nat, 111476131888681101088294336675020nat, 520574339405489291321043996967036nat, 0nat, 520574339405489291321043996967036nat);
    lemma_pow_mod_bit(2, 178778192nat, 2198678800047015135107398648734599nat, 89389096nat, 0nat, 520574339405489291321043996967036nat, 123254766836186677768052869500236nat, 1519826928992861082568403938759932nat, 0nat, 1519826928992861082568403938759932nat);
    lemma_pow_mod_bit(2, 357556384nat, 2198678800047015135107398648734599nat, 178778192nat, 0nat, 1519826928992861082568403938759932nat, 1050573596308145757132175644066395nat, 297068577588727528386212438944019nat, 0nat, 297068577588727528386212438944019nat);
    lemma_pow_mod_bit(2, 715112769nat, 2198678800047015135107398648734599nat, 357556384nat, 1nat, 297068577588727528386212438944019nat, 40137622552554175624125028360664nat, 464069087744767308012216828458625nat, 0nat, 928138175489534616024433656917250nat);
    lemma_pow_mod_bit(2, 1430225538nat, 2198678800047015135107398648734599nat, 715112769nat, 0nat, 928138175489534616024433656917250nat, 391799144460128357884914897170072nat, 155258892564477604521364453841372nat, 0nat, 155258892564477604521364453841372nat);
    lemma_pow_mod_bit(2, 2860451077nat, 2198678800047015135107398648734599nat, 1430225538nat, 1nat, 155258892564477604521364453841372nat, 10963549436976672733735065901430nat, 380488176553970104585864174265814nat, 0nat, 760976353107940209171728348531628nat);
    lemma_pow_mod_bit(2, 5720902155nat, 2198678800047015135107398648734599nat, 2860451077nat, 1nat, 760976353107940209171728348531628nat, 263378629919512445645403795122568nat, 681520982510414323520682409000152nat, 0nat, 1363041965020828647041364818000304nat);
    lemma_pow_mod_bit(2, 11441804310nat, 2198678800047015135107398648734599nat, 5720902155nat, 0nat, 1363041965020828647041364818000304nat, 844999914661529496636793137109984nat, 1522592269759696551763179854956000nat, 0nat, 1522592269759696551763179854956000nat);
    lemma_pow_mod_bit(2, 22883608621nat, 2198678800047015135107398648734599nat, 11441804310nat, 1nat, 1522592269759696551763179854956000nat, 1054400133335715880760870096525470nat, 2020520212191572691810159862263470nat, 1nat, 1842361624336130248512921075792341nat);
    lemma_pow_mod_bit(2, 45767217242nat, 2198678800047015135107398648734599nat, 22883608621nat, 0nat, 1842361624336130248512921075792341nat, 1543789094957336589722797799565212nat, 1698314083720245032123204773090293nat, 0nat, 1698314083720245032123204773090293nat);
    lemma_pow_mod_bit(2, 91534434485nat, 2198678800047015135107398648734599nat, 45767217242nat, 1nat, 1698314083720245032123204773090293nat, 1311819956103119773373552826373457nat, 520132797761279761028557879687106nat, 0nat, 1040265595522559522057115759374212nat);
    lemma_pow_mod_bit(2, 183068868971nat, 2198678800047015135107398648734599nat, 91534434485nat, 1nat, 1040265595522559522057115759374212nat, 492183082496981985464734189360331nat, 823636892594895452080951452828675nat, 0nat, 1647273785189790904161902905657350nat);
    lemma_pow_mod_bit(2, 366137737943nat, 2198678800047015135107398648734599nat, 183068868971nat, 1nat, 1647273785189790904161902905657350nat, 1234155222361482456022177487694686nat, 1315136832420370601301168052381586nat, 1nat, 431594864793726067494937456028573nat);
    lemma_pow_mod_bit(2, 732275475886nat, 2198678800047015135107398648734599nat, 366137737943nat, 0nat, 431594864793726067494937456028573nat, 84720936642647174591753173079007nat, 755812682364887549993688190953136nat, 0nat, 755812682364887549993688190953136nat);
    lemma_pow_mod_bit(2, 1464550951773nat, 2198678800047015135107398648734599nat, 732275475886nat, 1nat, 755812682364887549993688190953136nat, 259816400108733979950682182615849nat, 1705262370718744006607596576174945nat, 1nat, 1211845941390472878107794503615291nat);
    lemma_pow_mod_bit(2, 2929101903547nat, 2198678800047015135107398648734599nat, 1464550951773nat, 1nat, 1211845941390472878107794503615291nat, 667933208631091751972592385893775nat, 648052002765672637883767947793456nat, 0nat, 1296104005531345275767535895586912nat);
    lemma_pow_mod_bit(2, 5858203807094nat, 2198678800047015135107398648734599nat, 2929101903547nat, 0nat, 1296104005531345275767535895586912nat, 764043203181144927024876067749525nat, 2044658520138743725757622012380269nat, 0nat, 2044658520138743725757622012380269nat);
}

/// Square-and-multiply for `2^375316201424150181016 mod 375316201424150181017`, up to the exponent `11728631294504693156`.
proof fn pow_q3_full_0()
    ensures
        pow_mod(2, 11728631294504693156nat, 375316201424150181017nat) == 162946921078325711784nat,
{
    lemma_pow_mod_zero(2, 375316201424150181017nat);
    lemma_pow_mod_bit(2, 1nat, 375316201424150181017nat, 0nat, 1nat, 1nat, 0nat, 1nat, 0nat, 2nat);
    lemma_pow_mod_bit(2, 2nat, 375316201424150181017nat, 1nat, 0nat, 2nat, 0nat, 4nat, 0nat, 4nat);
    lemma_pow_mod_bit(2, 5nat, 375316201424150181017nat, 2nat, 1nat, 4nat, 0nat, 16nat, 0nat, 32nat);
    lemma_pow_mod_bit(2, 10nat, 375316201424150181017nat, 5nat, 0nat, 32nat, 0nat, 1024nat, 0nat, 1024nat);
    lemma_pow_mod_bit(2, 20nat, 375316201424150181017nat, 10nat, 0nat, 1024nat, 0nat, 1048576nat, 0nat, 1048576nat);
    lemma_pow_mod_bit(2, 40nat, 375316201424150181017nat, 20nat, 0nat, 1048576nat, 0nat, 1099511627776nat, 0nat, 1099511627776nat);
    lemma_pow_mod_bit(2, 81nat, 375316201424150181017nat, 40nat, 1nat, 1099511627776nat, 3221nat, 32334827441441650419nat, 0nat, 64669654882883300838nat);
    lemma_pow_mod_bit(2, 162nat, 375316201424150181017nat, 81nat, 0nat, 64669654882883300838nat, 11143042178306895410nat, 231189913871625070274nat, 0nat, 231189913871625070274nat);
    lemma_pow_mod_bit(2, 325nat, 375316201424150181017nat, 162nat, 1nat, 231189913871625070274nat, 142409989425333108114nat, 7306928079106963138nat, 0nat, 14613856158213926276nat);
    lemma_pow_mod_bit(2, 651nat, 375316201424150181017nat, 325nat, 1nat, 14613856158213926276nat, 569026306358713477nat, 335182883262775762067nat, 1nat, 295049565101401343117nat);
    lemma_pow_mod_bit(2, 1302nat, 375316201424150181017nat, 651nat, 0nat, 295049565101401343117nat, 231949075302893271820nat, 64719429647178234749nat, 0nat, 64719429647178234749nat);
    lemma_pow_mod_bit(2, 2604nat, 375316201424150181017nat, 1302nat, 0nat, 64719429647178234749nat, 11160201872347235559nat, 7810526802361909498nat, 0nat, 7810526802361909498nat);
    lemma_pow_mod_bit(2, 5208nat, 375316201424150181017nat, 2604nat, 0nat, 7810526802361909498nat, 162541155161782889nat, 201318523986939393891nat, 0nat, 201318523986939393891nat);
    lemma_pow_mod_bit(2, 10417nat, 375316201424150181017nat, 5208nat, 1nat, 201318523986939393891nat, 107986673494218079334nat, 202288813544281317203nat, 1nat, 29261425664412453389nat);
    lemma_pow_mod_bit(2, 20834nat, 375316201424150181017nat, 10417nat, 0nat, 29261425664412453389nat, 2281359101112442821nat, 151280818791885456364nat, 0nat, 151280818791885456364nat);
    lemma_pow_mod_bit(2, 41668nat, 375316201424150181017nat, 20834nat, 0nat, 151280818791885456364nat, 60977613136608558444nat, 15359047326524242948nat, 0nat, 15359047326524242948nat);
    lemma_pow_mod_bit(2, 83336nat, 375316201424150181017nat, 41668nat, 0nat, 15359047326524242948nat, 628537574139564438nat, 261439992365291857258nat, 0nat, 261439992365291857258nat);
    lemma_pow_mod_bit(2, 166673nat, 375316201424150181017nat, 83336nat, 1nat, 261439992365291857258nat, 182115425203079826671nat, 59035511593412774157nat, 0nat, 118071023186825548314nat);
    lemma_pow_mod_bit(2, 333347nat, 375316201424150181017nat, 166673nat, 1nat, 118071023186825548314nat, 37144057366788804310nat, 52665924731258459326nat, 0nat, 105331849462516918652nat);
    lemma_pow_mod_bit(2, 666695nat, 375316201424150181017nat, 333347nat, 1nat, 105331849462516918652nat, 29561203244343656717nat, 76133340469527555915nat, 0nat, 152266680939055111830nat);
    lemma_pow_mod_bit(2, 1333391nat, 375316201424150181017nat, 666695nat, 1nat, 152266680939055111830nat, 61774956786355594091nat, 7905733625580378353nat, 0nat, 15811467251160756706nat);
    lemma_pow_mod_bit(2, 2666782nat, 375316201424150181017nat, 1333391nat, 0nat, 15811467251160756706nat, 666111656480285315nat, 290086060681467105081nat, 0nat, 290086060681467105081nat);
    lemma_pow_mod_bit(2, 5333564nat, 375316201424150181017nat, 2666782nat, 0nat, 290086060681467105081nat, 224210738258519222065nat, 286646581234925476456nat, 0nat, 286646581234925476456nat);
    lemma_pow_mod_bit(2, 10667128nat, 375316201424150181017nat, 5333564nat, 0nat, 286646581234925476456nat, 218925434665191731343nat, 272905778933527804105nat, 0nat, 272905778933527804105nat);
    lemma_pow_mod_bit(2, 21334256nat, 375316201424150181017nat, 10667128nat, 0nat, 272905778933527804105nat, 198439512849985905359nat, 155157934184774480922nat, 0nat, 155157934184774480922nat);
    lemma_pow_mod_bit(2, 42668512nat, 375316201424150181017nat, 21334256nat, 0nat, 155157934184774480922nat, 64143206312803046029nat, 282874169125208938591nat, 0nat, 282874169125208938591nat);
    lemma_pow_mod_bit(2, 85337024nat, 375316201424150181017nat, 42668512nat, 0nat, 282874169125208938591nat, 213201016248824442010nat, 194340659089289741111nat, 0nat, 194340659089289741111nat);
    lemma_pow_mod_bit(2, 170674048nat, 375316201424150181017nat, 85337024nat, 0nat, 194340659089289741111nat, 100630592636146424130nat, 199099023612646774111nat, 0nat, 199099023612646774111nat);
    lemma_pow_mod_bit(2, 341348096nat, 375316201424150181017nat, 170674048nat, 0nat, 199099023612646774111nat, 105618731760292632610nat, 151655150191682675951nat, 0nat, 151655150191682675951nat);
    lemma_pow_mod_bit(2, 682696193nat, 375316201424150181017nat, 341348096nat, 1nat, 151655150191682675951nat, 61279754224278773239nat, 335786435143528350338nat, 1nat, 296256668862906519659nat);
    lemma_pow_mod_bit(2, 1365392386nat, 375316201424150181017nat, 682696193nat, 0nat, 296256668862906519659nat, 233850852994640547731nat, 296599312056474853854nat, 0nat, 296599312056474853854nat);
    lemma_pow_mod_bit(2, 2730784773nat, 375316201424150181017nat, 1365392386nat, 1nat, 296599312056474853854nat, 234392098125699345312nat, 326502568027468311012nat, 1nat, 277688934630786441007nat);
    lemma_pow_mod_bit(2, 5461569546nat, 375316201424150181017nat, 2730784773nat, 0nat, 277688934630786441007nat, 205456476762208256919nat, 190236278431598467426nat, 0nat, 190236278431598467426nat);
    lemma_pow_mod_bit(2, 10923139093nat, 375316201424150181017nat, 5461569546nat, 1nat, 190236278431598467426nat, 96424938476359567393nat, 284965262551222286795nat, 1nat, 194614323678294392573nat);
    lemma_pow_mod_bit(2, 21846278187nat, 375316201424150181017nat, 10923139093nat, 1nat, 194614323678294392573nat, 100914202043618043567nat, 58895678424595192690nat, 0nat, 117791356849190385380nat);
    lemma_pow_mod_bit(2, 43692556375nat, 375316201424150181017nat, 21846278187nat, 1nat, 117791356849190385380nat, 36968304847285815728nat, 182934571665212109024nat, 0nat, 365869143330424218048nat);
    lemma_pow_mod_bit(2, 87385112751nat, 375316201424150181017nat, 43692556375nat, 1nat, 365869143330424218048nat, 356659876481221094171nat, 180197135803795378397nat, 0nat, 360394271607590756794nat);
    lemma_pow_mod_bit(2, 174770225502nat, 375316201424150181017nat, 87385112751nat, 0nat, 360394271607590756794nat, 346065612181719022144nat, 234383604895825717988nat, 0nat, 234383604895825717988nat);
    lemma_pow_mod_bit(2, 349540451005nat, 375316201424150181017nat, 174770225502nat, 1nat, 234383604895825717988nat, 146371710135366498950nat, 65811459435666335994nat, 0nat, 131622918871332671988nat);
    lemma_pow_mod_bit(2, 699080902010nat, 375316201424150181017nat, 349540451005nat, 0nat, 131622918871332671988nat, 46159991778853835201nat, 151989807458763292727nat, 0nat, 151989807458763292727nat);
    lemma_pow_mod_bit(2, 1398161804020nat, 375316201424150181017nat, 699080902010nat, 0nat, 151989807458763292727nat, 61550504571065079589nat, 375165294557229134516nat, 0nat, 375165294557229134516nat);
    lemma_pow_mod_bit(2, 2796323608041nat, 375316201424150181017nat, 1398161804020nat, 1nat, 375165294557229134516nat, 375014448366832036392nat, 104288714948890983592nat, 0nat, 208577429897781967184nat);
    lemma_pow_mod_bit(2, 5592647216083nat, 375316201424150181017nat, 2796323608041nat, 1nat, 208577429897781967184nat, 115914378589798861840nat, 365714193716279198576nat, 1nat, 356112186008408216135nat);
    lemma_pow_mod_bit(2, 11185294432167nat, 375316201424150181017nat, 5592647216083nat, 1nat, 356112186008408216135nat, 337890793263066976770nat, 82107250982440363135nat, 0nat, 164214501964880726270nat);
    lemma_pow_mod_bit(2, 22370588864335nat, 375316201424150181017nat, 11185294432167nat, 1nat, 164214501964880726270nat, 71849823037878134286nat, 141303476329534064038nat, 0nat, 282606952659068128076nat);
    lemma_pow_mod_bit(2, 44741177728670nat, 375316201424150181017nat, 22370588864335nat, 0nat, 282606952659068128076nat, 212798406751927800106nat, 148077414928247673974nat, 0nat, 148077414928247673974nat);
    lemma_pow_mod_bit(2, 89482355457341nat, 375316201424150181017nat, 44741177728670nat, 1nat, 148077414928247673974nat, 58422526735136866097nat, 63229443828756672027nat, 0nat, 126458887657513344054nat);
    lemma_pow_mod_bit(2, 178964710914683nat, 375316201424150181017nat, 89482355457341nat, 1nat, 126458887657513344054nat, 42609005971215623569nat, 348931407743895565243nat, 1nat, 322546614063640949469nat);
    lemma_pow_mod_bit(2, 357929421829366nat, 375316201424150181017nat, 178964710914683nat, 0nat, 322546614063640949469nat, 277196448885366442142nat, 372759522409254163547nat, 0nat, 372759522409254163547nat);
    lemma_pow_mod_bit(2, 715858843658733nat, 375316201424150181017nat, 357929421829366nat, 1nat, 372759522409254163547nat, 370220259662455303324nat, 210547101008381820701nat, 1nat, 45778000592613460385nat);
    lemma_pow_mod_bit(2, 1431717687317467nat, 375316201424150181017nat, 715858843658733nat, 1nat, 45778000592613460385nat, 5583626100619680707nat, 106455894737171809206nat, 0nat, 212911789474343618412nat);
    lemma_pow_mod_bit(2, 2863435374634934nat, 375316201424150181017nat, 1431717687317467nat, 0nat, 212911789474343618412nat, 120781969776832318715nat, 98133673365978568589nat, 0nat, 98133673365978568589nat);
    lemma_pow_mod_bit(2, 5726870749269869nat, 375316201424150181017nat, 2863435374634934nat, 1nat, 98133673365978568589nat, 25658945208755657283nat, 69768687546113054110nat, 0nat, 139537375092226108220nat);
    lemma_pow_mod_bit(2, 11453741498539739nat, 375316201424150181017nat, 5726870749269869nat, 1nat, 139537375092226108220nat, 51878067010553886508nat, 168896917606077549764nat, 0nat, 337793835212155099528nat);
    lemma_pow_mod_bit(2, 22907482997079478nat, 375316201424150181017nat, 11453741498539739nat, 0nat, 337793835212155099528nat, 304022780456485748798nat, 333649373383095655218nat, 0nat, 333649373383095655218nat);
    lemma_pow_mod_bit(2, 45814965994158957nat, 375316201424150181017nat, 22907482997079478nat, 1nat, 333649373383095655218nat, 296608310370076219910nat, 105928829995131179054nat, 0nat, 211857659990262358108nat);
    lemma_pow_mod_bit(2, 91629931988317915nat, 375316201424150181017nat, 45814965994158957nat, 1nat, 211857659990262358108nat, 119588943739271036197nat, 345469778034124067315nat, 1nat, 315623354644097953613nat);
    lemma_pow_mod_bit(2, 183259863976635830nat, 375316201424150181017nat, 91629931988317915nat, 0nat, 315623354644097953613nat, 265424465074488469403nat, 281753163492583830918nat, 0nat, 281753163492583830918nat);
    lemma_pow_mod_bit(2, 366519727953271661nat, 375316201424150181017nat, 183259863976635830nat, 1nat, 281753163492583830918nat, 211514570479105778580nat, 7722768855091506864nat, 0nat, 15445537710183013728nat);
    lemma_pow_mod_bit(2, 733039455906543322nat, 375316201424150181017nat, 366519727953271661nat, 0nat, 15445537710183013728nat, 635636389400307942nat, 327875604109793720970nat, 0nat, 327875604109793720970nat);
    lemma_pow_mod_bit(2, 1466078911813086644nat, 375316201424150181017nat, 733039455906543322nat, 0nat, 327875604109793720970nat, 286431577860056660785nat, 47252973603902422555nat, 0nat, 47252973603902422555nat);
    lemma_pow_mod_bit(2, 2932157823626173289nat, 375316201424150181017nat, 1466078911813086644nat, 1nat, 47252973603902422555nat, 5949232955940878408nat, 82034427494585947089nat, 0nat, 164068854989171894178nat);
    lemma_pow_mod_bit(2, 5864315647252346578nat, 375316201424150181017nat, 2932157823626173289nat, 0nat, 164068854989171894178nat, 71722427849675571017nat, 23738327109041511395nat, 0nat, 23738327109041511395nat);
    lemma_pow_mod_bit(2, 11728631294504693156nat, 375316201424150181017nat, 5864315647252346578nat, 0nat, 23738327109041511395nat, 1501422458709760073nat, 162946921078325711784nat, 0nat, 162946921078325711784nat);
}

/// Square-and-multiply for `2^375316201424150181016 mod 375316201424150181017`, up to the exponent `375316201424150181016`.
proof fn pow_q3_full_1()
    requires
        pow_mod(2, 11728631294504693156nat, 375316201424150181017nat) == 162946921078325711784nat,
    ensures
        pow_mod(2, 375316201424150181016nat, 375316201424150181017nat) == 1nat,
{
    lemma_pow_mod_bit(2, 23457262589009386313nat, 375316201424150181017nat, 11728631294504693156nat, 1nat, 162946921078325711784nat, 70744878553483107174nat, 100284256766525146698nat, 0nat, 200568513533050293396nat);
    lemma_pow_mod_bit(2, 46914525178018772627nat, 375316201424150181017nat, 23457262589009386313nat, 1nat, 200568513533050293396nat, 107183565399553455511nat, 362405788603174978129nat, 1nat, 349495375782199775241nat);
    lemma_pow_mod_bit(2, 93829050356037545254nat, 375316201424150181017nat, 46914525178018772627nat, 0nat, 349495375782199775241nat, 325450959030412198945nat, 375316201424150181016nat, 0nat, 375316201424150181016nat);
    lemma_pow_mod_bit(2, 187658100712075090508nat, 375316201424150181017nat, 93829050356037545254nat, 0nat, 375316201424150181016nat, 375316201424150181015nat, 1nat, 0nat, 1nat);
    lemma_pow_mod_bit(2, 375316201424150181016nat, 375316201424150181017nat, 187658100712075090508nat, 0nat, 1nat, 0nat, 1nat, 0nat, 1nat);
}

/// Square-and-multiply for `2^41546145217064 mod 375316201424150181017`.
proof fn pow_q3_part0()
    ensures
        pow_mod(2, 41546145217064nat, 375316201424150181017nat) == 285950582996613146225nat,
{
    lemma_pow_mod_zero(2, 375316201424150181017nat);
    lemma_pow_mod_bit(2, 1nat, 375316201424150181017nat, 0nat, 1nat, 1nat, 0nat, 1nat, 0nat, 2nat);
    lemma_pow_mod_bit(2, 2nat, 375316201424150181017nat, 1nat, 0nat, 2nat, 0nat, 4nat, 0nat, 4nat);
    lemma_pow_mod_bit(2, 4nat, 375316201424150181017nat, 2nat, 0nat, 4nat, 0nat, 16nat, 0nat, 16nat);
    lemma_pow_mod_bit(2, 9nat, 375316201424150181017nat, 4nat, 1nat, 16nat, 0nat, 256nat, 0nat, 512nat);
    lemma_pow_mod_bit(2, 18nat, 375316201424150181017nat, 9nat, 0nat, 512nat, 0nat, 262144nat, 0nat, 262144nat);
    lemma_pow_mod_bit(2, 37nat, 375316201424150181017nat, 18nat, 1nat, 262144nat, 0nat, 68719476736nat, 0nat, 137438953472nat);
    lemma_pow_mod_bit(2, 75nat, 375316201424150181017nat, 37nat, 1nat, 137438953472nat, 50nat, 123655860271071803934nat, 0nat, 247311720542143607868nat);
    lemma_pow_mod_bit(2, 151nat, 375316201424150181017nat, 75nat, 1nat, 247311720542143607868nat, 162964153653452495966nat, 279894255142389228002nat, 1nat, 184472308860628274987nat);
    lemma_pow_mod_bit(2, 302nat, 375316201424150181017nat, 151nat, 0nat, 184472308860628274987nat, 90670300421998593227nat, 343702265947889678310nat, 0nat, 343702265947889678310nat);
    lemma_pow_mod_bit(2, 604nat, 375316201424150181017nat, 302nat, 0nat, 343702265947889678310nat, 314751260855408904775nat, 157153547765318799925nat, 0nat, 157153547765318799925nat);
    lemma_pow_mod_bit(2, 1209nat, 375316201424150181017nat, 604nat, 1nat, 157153547765318799925nat, 65803814174586185476nat, 13575781929243696533nat, 0nat, 27151563858487393066nat);
    lemma_pow_mod_bit(2, 2418nat, 375316201424150181017nat, 1209nat, 0nat, 27151563858487393066nat, 1964230206860668437nat, 180668659405616419927nat, 0nat, 180668659405616419927nat);
    lemma_pow_mod_bit(2, 4836nat, 375316201424150181017nat, 2418nat, 0nat, 180668659405616419927nat, 86969772068364258839nat, 270534375741510426066nat, 0nat, 270534375741510426066nat);
    lemma_pow_mod_bit(2, 9673nat, 375316201424150181017nat, 4836nat, 1nat, 270534375741510426066nat, 195005832895385684593nat, 158066927429434265275nat, 0nat, 316133854858868530550nat);
    lemma_pow_mod_bit(2, 19346nat, 375316201424150181017nat, 9673nat, 0nat, 316133854858868530550nat, 266283773012462746037nat, 71173603553833922871nat, 0nat, 71173603553833922871nat);
    lemma_pow_mod_bit(2, 38692nat, 375316201424150181017nat, 19346nat, 0nat, 71173603553833922871nat, 13497104104795949552nat, 139574856351576828257nat, 0nat, 139574856351576828257nat);
    lemma_pow_mod_bit(2, 77385nat, 375316201424150181017nat, 38692nat, 1nat, 139574856351576828257nat, 51905940781776676618nat, 299730050858702297543nat, 1nat, 224143900293254414069nat);
    lemma_pow_mod_bit(2, 154771nat, 375316201424150181017nat, 77385nat, 1nat, 224143900293254414069nat, 133861762023683293159nat, 74195577483977374058nat, 0nat, 148391154967954748116nat);
    lemma_pow_mod_bit(2, 309542nat, 375316201424150181017nat, 154771nat, 0nat, 148391154967954748116nat, 58670355260892452969nat, 226043171538496459983nat, 0nat, 226043171538496459983nat);
    lemma_pow_mod_bit(2, 619085nat, 375316201424150181017nat, 309542nat, 1nat, 226043171538496459983nat, 136139914038611850066nat, 173534601327556963167nat, 0nat, 347069202655113926334nat);
    lemma_pow_mod_bit(2, 1238171nat, 375316201424150181017nat, 619085nat, 1nat, 347069202655113926334nat, 320948125805862385448nat, 66124577188952038940nat, 0nat, 132249154377904077880nat);
    lemma_pow_mod_bit(2, 2476343nat, 375316201424150181017nat, 1238171nat, 1nat, 132249154377904077880nat, 46600276692839032370nat, 37331060954482774110nat, 0nat, 74662121908965548220nat);
    lemma_pow_mod_bit(2, 4952686nat, 375316201424150181017nat, 2476343nat, 0nat, 74662121908965548220nat, 14852629401014020892nat, 345732554188325361236nat, 0nat, 345732554188325361236nat);
    lemma_pow_mod_bit(2, 9905372nat, 375316201424150181017nat, 4952686nat, 0nat, 345732554188325361236nat, 318480786526184754348nat, 128805057580013635780nat, 0nat, 128805057580013635780nat);
    lemma_pow_mod_bit(2, 19810745nat, 375316201424150181017nat, 9905372nat, 1nat, 128805057580013635780nat, 44204707378036136348nat, 209179980763002902484nat, 1nat, 43043760101855623951nat);
    lemma_pow_mod_bit(2, 39621491nat, 375316201424150181017nat, 19810745nat, 1nat, 43043760101855623951nat, 4936544909800634098nat, 225849062399442332735nat, 1nat, 76381923374734484453nat);
    lemma_pow_mod_bit(2, 79242983nat, 375316201424150181017nat, 39621491nat, 1nat, 76381923374734484453nat, 15544754519750933349nat, 125345645522646673276nat, 0nat, 250691291045293346552nat);
    lemma_pow_mod_bit(2, 158485966nat, 375316201424150181017nat, 79242983nat, 0nat, 250691291045293346552nat, 167448469230702560341nat, 334614262159055041907nat, 0nat, 334614262159055041907nat);
    lemma_pow_mod_bit(2, 316971933nat, 375316201424150181017nat, 158485966nat, 1nat, 334614262159055041907nat, 298326328614078795579nat, 313838365503336872806nat, 1nat, 252360529582523564595nat);
    lemma_pow_mod_bit(2, 633943866nat, 375316201424150181017nat, 316971933nat, 0nat, 252360529582523564595nat, 169685818649750961524nat, 58889642090735324117nat, 0nat, 58889642090735324117nat);
    lemma_pow_mod_bit(2, 1267887732nat, 375316201424150181017nat, 633943866nat, 0nat, 58889642090735324117nat, 9240181831787433870nat, 31328679990624983899nat, 0nat, 31328679990624983899nat);
    lemma_pow_mod_bit(2, 2535775464nat, 375316201424150181017nat, 1267887732nat, 0nat, 31328679990624983899nat, 2615091451503301155nat, 257090950227694067566nat, 0nat, 257090950227694067566nat);
    lemma_pow_mod_bit(2, 5071550929nat, 375316201424150181017nat, 2535775464nat, 1nat, 257090950227694067566nat, 176106857199811933969nat, 315710504441971897883nat, 1nat, 256104807459793614749nat);
    lemma_pow_mod_bit(2, 10143101859nat, 375316201424150181017nat, 5071550929nat, 1nat, 256104807459793614749nat, 174758436100375365452nat, 6838359838502308317nat, 0nat, 13676719677004616634nat);
    lemma_pow_mod_bit(2, 20286203719nat, 375316201424150181017nat, 10143101859nat, 1nat, 13676719677004616634nat, 498386854640400643nat, 86202193579456296025nat, 0nat, 172404387158912592050nat);
    lemma_pow_mod_bit(2, 40572407438nat, 375316201424150181017nat, 20286203719nat, 0nat, 172404387158912592050nat, 79195282801153397391nat, 340706701272537675853nat, 0nat, 340706701272537675853nat);
    lemma_pow_mod_bit(2, 81144814877nat, 375316201424150181017nat, 40572407438nat, 1nat, 340706701272537675853nat, 309288690047327245754nat, 173448527759754625791nat, 0nat, 346897055519509251582nat);
    lemma_pow_mod_bit(2, 162289629754nat, 375316201424150181017nat, 81144814877nat, 0nat, 346897055519509251582nat, 320629822724093615026nat, 201881412757958341282nat, 0nat, 201881412757958341282nat);
    lemma_pow_mod_bit(2, 324579259508nat, 375316201424150181017nat, 162289629754nat, 0nat, 201881412757958341282nat, 108591381513770813210nat, 267134375687990568954nat, 0nat, 267134375687990568954nat);
    lemma_pow_mod_bit(2, 649158519016nat, 375316201424150181017nat, 324579259508nat, 0nat, 267134375687990568954nat, 190135076512635434140nat, 247443851439246933736nat, 0nat, 247443851439246933736nat);
    lemma_pow_mod_bit(2, 1298317038033nat, 375316201424150181017nat, 649158519016nat, 1nat, 247443851439246933736nat, 163138333444585178402nat, 14784108794436122862nat, 0nat, 29568217588872245724nat);
    lemma_pow_mod_bit(2, 2596634076066nat, 375316201424150181017nat, 1298317038033nat, 0nat, 29568217588872245724nat, 2329447777808180318nat, 157910004643959660770nat, 0nat, 157910004643959660770nat);
    lemma_pow_mod_bit(2, 5193268152133nat, 375316201424150181017nat, 2596634076066nat, 1nat, 157910004643959660770nat, 66438830703381545635nat, 109298208910980782105nat, 0nat, 218596417821961564210nat);
    lemma_pow_mod_bit(2, 10386536304266nat, 375316201424150181017nat, 5193268152133nat, 0nat, 218596417821961564210nat, 127317695594472277360nat, 27454951717722048980nat, 0nat, 27454951717722048980nat);
    lemma_pow_mod_bit(2, 20773072608532nat, 375316201424150181017nat, 10386536304266nat, 0nat, 27454951717722048980nat, 2008371530358205186nat, 117099125556390886238nat, 0nat, 117099125556390886238nat);
    lemma_pow_mod_bit(2, 41546145217064nat, 375316201424150181017nat, 20773072608532nat, 0nat, 117099125556390886238nat, 36535074036345792907nat, 285950582996613146225nat, 0nat, 285950582996613146225nat);
}

/// Square-and-multiply for `2^48691528600744 mod 375316201424150181017`.
proof fn pow_q3_part1()
    ensures
        pow_mod(2, 48691528600744nat, 375316201424150181017nat) == 160247088878246180599nat,
{
    lemma_pow_mod_zero(2, 375316201424150181017nat);
    lemma_pow_mod_bit(2, 1nat, 375316201424150181017nat, 0nat, 1nat, 1nat, 0nat, 1nat, 0nat, 2nat);
    lemma_pow_mod_bit(2, 2nat, 375316201424150181017nat, 1nat, 0nat, 2nat, 0nat, 4nat, 0nat, 4nat);
    lemma_pow_mod_bit(2, 5nat, 375316201424150181017nat, 2nat, 1nat, 4nat, 0nat, 16nat, 0nat, 32nat);
    lemma_pow_mod_bit(2, 11nat, 375316201424150181017nat, 5nat, 1nat, 32nat, 0nat, 1024nat, 0nat, 2048nat);
    lemma_pow_mod_bit(2, 22nat, 375316201424150181017nat, 11nat, 0nat, 2048nat, 0nat, 4194304nat, 0nat, 4194304nat);
    lemma_pow_mod_bit(2, 44nat, 375316201424150181017nat, 22nat, 0nat, 4194304nat, 0nat, 17592186044416nat, 0nat, 17592186044416nat);
    lemma_pow_mod_bit(2, 88nat, 375316201424150181017nat, 44nat, 0nat, 17592186044416nat, 824598nat, 20759393677758524890nat, 0nat, 20759393677758524890nat);
    lemma_pow_mod_bit(2, 177nat, 375316201424150181017nat, 88nat, 1nat, 20759393677758524890nat, 1148238270111700144nat, 124444100181524545652nat, 0nat, 248888200363049091304nat);
    lemma_pow_mod_bit(2, 354nat, 375316201424150181017nat, 177nat, 0nat, 248888200363049091304nat, 165048393980605072896nat, 287505344633248005184nat, 0nat, 287505344633248005184nat);
    lemma_pow_mod_bit(2, 708nat, 375316201424150181017nat, 354nat, 0nat, 287505344633248005184nat, 220239155354948905937nat, 268493984550634875927nat, 0nat, 268493984550634875927nat);
    lemma_pow_mod_bit(2, 1417nat, 375316201424150181017nat, 708nat, 1nat, 268493984550634875927nat, 192075427243301261602nat, 36955511989912700095nat, 0nat, 73911023979825400190nat);
    lemma_pow_mod_bit(2, 2834nat, 375316201424150181017nat, 1417nat, 0nat, 73911023979825400190nat, 14555298825410131195nat, 339178776868683510785nat, 0nat, 339178776868683510785nat);
    lemma_pow_mod_bit(2, 5668nat, 375316201424150181017nat, 2834nat, 0nat, 339178776868683510785nat, 306520854259966573554nat, 364594126454866291807nat, 0nat, 364594126454866291807nat);
    lemma_pow_mod_bit(2, 11336nat, 375316201424150181017nat, 5668nat, 0nat, 364594126454866291807nat, 354178360915366444649nat, 275101022489814297216nat, 0nat, 275101022489814297216nat);
    lemma_pow_mod_bit(2, 22673nat, 375316201424150181017nat, 11336nat, 1nat, 275101022489814297216nat, 201644832511276590316nat, 149633268918036119284nat, 0nat, 299266537836072238568nat);
    lemma_pow_mod_bit(2, 45347nat, 375316201424150181017nat, 22673nat, 1nat, 299266537836072238568nat, 238626684189355592035nat, 99460834880253291029nat, 0nat, 198921669760506582058nat);
    lemma_pow_mod_bit(2, 90695nat, 375316201424150181017nat, 45347nat, 1nat, 198921669760506582058nat, 105430649010511565667nat, 47147377111355172025nat, 0nat, 94294754222710344050nat);
    lemma_pow_mod_bit(2, 181390nat, 375316201424150181017nat, 90695nat, 0nat, 94294754222710344050nat, 23690692382002818999nat, 260263356439233660517nat, 0nat, 260263356439233660517nat);
    lemma_pow_mod_bit(2, 362780nat, 375316201424150181017nat, 181390nat, 0nat, 260263356439233660517nat, 180479857911769241473nat, 67071176657470989248nat, 0nat, 67071176657470989248nat);
    lemma_pow_mod_bit(2, 725560nat, 375316201424150181017nat, 362780nat, 0nat, 67071176657470989248nat, 11986007321687171523nat, 149087724416554026613nat, 0nat, 149087724416554026613nat);
    lemma_pow_mod_bit(2, 1451120nat, 375316201424150181017nat, 725560nat, 0nat, 149087724416554026613nat, 59222462252800916500nat, 156279862765410171269nat, 0nat, 156279862765410171269nat);
    lemma_pow_mod_bit(2, 2902241nat, 375316201424150181017nat, 1451120nat, 1nat, 156279862765410171269nat, 65074183883616070148nat, 217932076235543089845nat, 1nat, 60547951046935998673nat);
    lemma_pow_mod_bit(2, 5804482nat, 375316201424150181017nat, 2902241nat, 0nat, 60547951046935998673nat, 9767908664936896420nat, 305318180006678501789nat, 0nat, 305318180006678501789nat);
    lemma_pow_mod_bit(2, 11608965nat, 375316201424150181017nat, 5804482nat, 1nat, 305318180006678501789nat, 248375078637338656901nat, 68496305454869952204nat, 0nat, 136992610909739904408nat);
    lemma_pow_mod_bit(2, 23217930nat, 375316201424150181017nat, 11608965nat, 0nat, 136992610909739904408nat, 50003105042242934310nat, 230381103001237837194nat, 0nat, 230381103001237837194nat);
    lemma_pow_mod_bit(2, 46435860nat, 375316201424150181017nat, 23217930nat, 0nat, 230381103001237837194nat, 141415298403507055587nat, 148568483056118601657nat, 0nat, 148568483056118601657nat);
    lemma_pow_mod_bit(2, 92871720nat, 375316201424150181017nat, 46435860nat, 0nat, 148568483056118601657nat, 58810661713619037788nat, 244180433979479875253nat, 0nat, 244180433979479875253nat);
    lemma_pow_mod_bit(2, 185743441nat, 375316201424150181017nat, 92871720nat, 1nat, 244180433979479875253nat, 158863603841671369099nat, 344514413465371620326nat, 1nat, 313712625506593059635nat);
    lemma_pow_mod_bit(2, 371486882nat, 375316201424150181017nat, 185743441nat, 0nat, 313712625506593059635nat, 262220525063395862238nat, 93653613374171597179nat, 0nat, 93653613374171597179nat);
    lemma_pow_mod_bit(2, 742973764nat, 375316201424150181017nat, 371486882nat, 0nat, 93653613374171597179nat, 23369626103954361174nat, 92868864025144124083nat, 0nat, 92868864025144124083nat);
    lemma_pow_mod_bit(2, 1485947528nat, 375316201424150181017nat, 742973764nat, 0nat, 92868864025144124083nat, 22979625906353816025nat, 119895617448835193464nat, 0nat, 119895617448835193464nat);
    lemma_pow_mod_bit(2, 2971895056nat, 375316201424150181017nat, 1485947528nat, 0nat, 119895617448835193464nat, 38300928733934638353nat, 239875026794927574295nat, 0nat, 239875026794927574295nat);
    lemma_pow_mod_bit(2, 5943790112nat, 375316201424150181017nat, 2971895056nat, 0nat, 239875026794927574295nat, 153310803694403846417nat, 310916089861127880936nat, 0nat, 310916089861127880936nat);
    lemma_pow_mod_bit(2, 11887580224nat, 375316201424150181017nat, 5943790112nat, 0nat, 310916089861127880936nat, 257566325588183559010nat, 94649373010990922926nat, 0nat, 94649373010990922926nat);
    lemma_pow_mod_bit(2, 23775160449nat, 375316201424150181017nat, 11887580224nat, 1nat, 94649373010990922926nat, 23869216882672123887nat, 5644098434372748397nat, 0nat, 11288196868745496794nat);
    lemma_pow_mod_bit(2, 47550320899nat, 375316201424150181017nat, 23775160449nat, 1nat, 11288196868745496794nat, 339509427155138058nat, 30918007211538433450nat, 0nat, 61836014423076866900nat);
    lemma_pow_mod_bit(2, 95100641798nat, 375316201424150181017nat, 47550320899nat, 0nat, 61836014423076866900nat, 10187923316984019001nat, 149886575149998105983nat, 0nat, 149886575149998105983nat);
    lemma_pow_mod_bit(2, 190201283596nat, 375316201424150181017nat, 95100641798nat, 0nat, 149886575149998105983nat, 59858821241790465319nat, 338184539248789746866nat, 0nat, 338184539248789746866nat);
    lemma_pow_mod_bit(2, 380402567193nat, 375316201424150181017nat, 190201283596nat, 1nat, 338184539248789746866nat, 304726473711872682468nat, 374193454788794512000nat, 1nat, 373070708153438842983nat);
    lemma_pow_mod_bit(2, 760805134386nat, 375316201424150181017nat, 380402567193nat, 0nat, 373070708153438842983nat, 370838649527993754980nat, 63958700349183123629nat, 0nat, 63958700349183123629nat);
    lemma_pow_mod_bit(2, 1521610268773nat, 375316201424150181017nat, 760805134386nat, 1nat, 63958700349183123629nat, 10899383865749034853nat, 353322615112506144140nat, 1nat, 331329028800862107263nat);
    lemma_pow_mod_bit(2, 3043220537546nat, 375316201424150181017nat, 1521610268773nat, 0nat, 331329028800862107263nat, 292497166148337374318nat, 219627669166730429763nat, 0nat, 219627669166730429763nat);
    lemma_pow_mod_bit(2, 6086441075093nat, 375316201424150181017nat, 3043220537546nat, 1nat, 219627669166730429763nat, 128521798101378118710nat, 136784424945261708099nat, 0nat, 273568849890523416198nat);
    lemma_pow_mod_bit(2, 12172882150186nat, 375316201424150181017nat, 6086441075093nat, 0nat, 273568849890523416198nat, 199404969320378684941nat, 341607175242766810207nat, 0nat, 341607175242766810207nat);
    lemma_pow_mod_bit(2, 24345764300372nat, 375316201424150181017nat, 12172882150186nat, 0nat, 341607175242766810207nat, 310925725387120154694nat, 11151080292417139051nat, 0nat, 11151080292417139051nat);
    lemma_pow_mod_bit(2, 48691528600744nat, 375316201424150181017nat, 24345764300372nat, 0nat, 11151080292417139051nat, 331311548012306706nat, 160247088878246180599nat, 0nat, 160247088878246180599nat);
}

/// Square-and-multiply for `2^9033718 mod 9033719`.
proof fn pow_q4_full()
    ensures
        pow_mod(2, 9033718nat, 9033719nat) == 1nat,
{
    lemma_pow_mod_zero(2, 9033719nat);
    lemma_pow_mod_bit(2, 1nat, 9033719nat, 0nat, 1nat, 1nat, 0nat, 1nat, 0nat, 2nat);
    lemma_pow_mod_bit(2, 2nat, 9033719nat, 1nat, 0nat, 2nat, 0nat, 4nat, 0nat, 4nat);
    lemma_pow_mod_bit(2, 4nat, 9033719nat, 2nat, 0nat, 4nat, 0nat, 16nat, 0nat, 16nat);
    lemma_pow_mod_bit(2, 8nat, 9033719nat, 4nat, 0nat, 16nat, 0nat, 256nat, 0nat, 256nat);
    lemma_pow_mod_bit(2, 17nat, 9033719nat, 8nat, 1nat, 256nat, 0nat, 65536nat, 0nat, 131072nat);
    lemma_pow_mod_bit(2, 34nat, 9033719nat, 17nat, 0nat, 131072nat, 1901nat, 6769365nat, 0nat, 6769365nat);
    lemma_pow_mod_bit(2, 68nat, 9033719nat, 34nat, 0nat, 6769365nat, 5072584nat, 4043329nat, 0nat, 4043329nat);
    lemma_pow_mod_bit(2, 137nat, 9033719nat, 68nat, 1nat, 4043329nat, 1809720nat, 7453561nat, 1nat, 5873403nat);
    lemma_pow_mod_bit(2, 275nat, 9033719nat, 137nat, 1nat, 5873403nat, 3818677nat, 7830646nat, 1nat, 6627573nat);
    lemma_pow_mod_bit(2, 551nat, 9033719nat, 275nat, 1nat, 6627573nat, 4862307nat, 8740596nat, 1nat, 8447473nat);
    lemma_pow_mod_bit(2, 1102nat, 9033719nat, 551nat, 0nat, 8447473nat, 7899271nat, 5566880nat, 0nat, 5566880nat);
    lemma_pow_mod_bit(2, 2205nat, 9033719nat, 1102nat, 1nat, 5566880nat, 3430497nat, 7006057nat, 1nat, 4978395nat);
    lemma_pow_mod_bit(2, 4410nat, 9033719nat, 2205nat, 0nat, 4978395nat, 2743545nat, 2182170nat, 0nat, 2182170nat);
    lemma_pow_mod_bit(2, 8821nat, 9033719nat, 4410nat, 1nat, 2182170nat, 527121nat, 2915901nat, 0nat, 5831802nat);
    lemma_pow_mod_bit(2, 17643nat, 9033719nat, 8821nat, 1nat, 5831802nat, 3764774nat, 4152698nat, 0nat, 8305396nat);
    lemma_pow_mod_bit(2, 35287nat, 9033719nat, 17643nat, 1nat, 8305396nat, 7635792nat, 3446368nat, 0nat, 6892736nat);
    lemma_pow_mod_bit(2, 70575nat, 9033719nat, 35287nat, 1nat, 6892736nat, 5259163nat, 8848499nat, 1nat, 8663279nat);
    lemma_pow_mod_bit(2, 141151nat, 9033719nat, 70575nat, 1nat, 8663279nat, 8308029nat, 3601990nat, 0nat, 7203980nat);
    lemma_pow_mod_bit(2, 282303nat, 9033719nat, 141151nat, 1nat, 7203980nat, 5744846nat, 3378126nat, 0nat, 6756252nat);
    lemma_pow_mod_bit(2, 564607nat, 9033719nat, 282303nat, 1nat, 6756252nat, 5052951nat, 1632735nat, 0nat, 3265470nat);
    lemma_pow_mod_bit(2, 1129214nat, 9033719nat, 564607nat, 0nat, 3265470nat, 1180388nat, 817928nat, 0nat, 817928nat);
    lemma_pow_mod_bit(2, 2258429nat, 9033719nat, 1129214nat, 1nat, 817928nat, 74056nat, 5118920nat, 1nat, 1204121nat);
    lemma_pow_mod_bit(2, 4516859nat, 9033719nat, 2258429nat, 1nat, 1204121nat, 160499nat, 4516860nat, 1nat, 1nat);
    lemma_pow_mod_bit(2, 9033718nat, 9033719nat, 4516859nat, 0nat, 1nat, 0nat, 1nat, 0nat, 1nat);
}

/// Square-and-multiply for `2^206 mod 9033719`.
proof fn pow_q4_part0()
    ensures
        pow_mod(2, 206nat, 9033719nat) == 5420791nat,
{
    lemma_pow_mod_zero(2, 9033719nat);
    lemma_pow_mod_bit(2, 1nat, 9033719nat, 0nat, 1nat, 1nat, 0nat, 1nat, 0nat, 2nat);
    lemma_pow_mod_bit(2, 3nat, 9033719nat, 1nat, 1nat, 2nat, 0nat, 4nat, 0nat, 8nat);
    lemma_pow_mod_bit(2, 6nat, 9033719nat, 3nat, 0nat, 8nat, 0nat, 64nat, 0nat, 64nat);
    lemma_pow_mod_bit(2, 12nat, 9033719nat, 6nat, 0nat, 64nat, 0nat, 4096nat, 0nat, 4096nat);
    lemma_pow_mod_bit(2, 25nat, 9033719nat, 12nat, 1nat, 4096nat, 1nat, 7743497nat, 1nat, 6453275nat);
    lemma_pow_mod_bit(2, 51nat, 9033719nat, 25nat, 1nat, 6453275nat, 4609924nat, 198269nat, 0nat, 396538nat);
    lemma_pow_mod_bit(2, 103nat, 9033719nat, 51nat, 1nat, 396538nat, 17406nat, 1472530nat, 0nat, 2945060nat);
    lemma_pow_mod_bit(2, 206nat, 9033719nat, 103nat, 0nat, 2945060nat, 960111nat, 5420791nat, 0nat, 5420791nat);
}

/// Square-and-multiply for `2^43852 mod 43853`.
proof fn pow_q5_full()
    ensures
        pow_mod(2, 43852nat, 43853nat) == 1nat,
{
    lemma_pow_mod_zero(2, 43853nat);
    lemma_pow_mod_bit(2, 1nat, 43853nat, 0nat, 1nat, 1nat, 0nat, 1nat, 0nat, 2nat);
    lemma_pow_mod_bit(2, 2nat, 43853nat, 1nat, 0nat, 2nat, 0nat, 4nat, 0nat, 4nat);
    lemma_pow_mod_bit(2, 5nat, 43853nat, 2nat, 1nat, 4nat, 0nat, 16nat, 0nat, 32nat);
    lemma_pow_mod_bit(2, 10nat, 43853nat, 5nat, 0nat, 32nat, 0nat, 1024nat, 0nat, 1024nat);
    lemma_pow_mod_bit(2, 21nat, 43853nat, 10nat, 1nat, 1024nat, 23nat, 39957nat, 1nat, 36061nat);
    lemma_pow_mod_bit(2, 42nat, 43853nat, 21nat, 0nat, 36061nat, 29653nat, 22712nat, 0nat, 22712nat);
    lemma_pow_mod_bit(2, 85nat, 43853nat, 42nat, 1nat, 22712nat, 11762nat, 35958nat, 1nat, 28063nat);
    lemma_pow_mod_bit(2, 171nat, 43853nat, 85nat, 1nat, 28063nat, 17958nat, 19795nat, 0nat, 39590nat);
    lemma_pow_mod_bit(2, 342nat, 43853nat, 171nat, 0nat, 39590nat, 35741nat, 18027nat, 0nat, 18027nat);
    lemma_pow_mod_bit(2, 685nat, 43853nat, 342nat, 1nat, 18027nat, 7410nat, 21999nat, 1nat, 145nat);
    lemma_pow_mod_bit(2, 1370nat, 43853nat, 685nat, 0nat, 145nat, 0nat, 21025nat, 0nat, 21025nat);
    lemma_pow_mod_bit(2, 2740nat, 43853nat, 1370nat, 0nat, 21025nat, 10080nat, 12385nat, 0nat, 12385nat);
    lemma_pow_mod_bit(2, 5481nat, 43853nat, 2740nat, 1nat, 12385nat, 3497nat, 34284nat, 1nat, 24715nat);
    lemma_pow_mod_bit(2, 10963nat, 43853nat, 5481nat, 1nat, 24715nat, 13929nat, 2788nat, 0nat, 5576nat);
    lemma_pow_mod_bit(2, 21926nat, 43853nat, 10963nat, 0nat, 5576nat, 708nat, 43852nat, 0nat, 43852nat);
    lemma_pow_mod_bit(2, 43852nat, 43853nat, 21926nat, 0nat, 43852nat, 43851nat, 1nat, 0nat, 1nat);
}

/// Square-and-multiply for `2^76 mod 43853`.
proof fn pow_q5_part0()
    ensures
        pow_mod(2, 76nat, 43853nat) == 30632nat,
{
    lemma_pow_mod_zero(2, 43853nat);
    lemma_pow_mod_bit(2, 1nat, 43853nat, 0nat, 1nat, 1nat, 0nat, 1nat, 0nat, 2nat);
    lemma_pow_mod_bit(2, 2nat, 43853nat, 1nat, 0nat, 2nat, 0nat, 4nat, 0nat, 4nat);
    lemma_pow_mod_bit(2, 4nat, 43853nat, 2nat, 0nat, 4nat, 0nat, 16nat, 0nat, 16nat);
    lemma_pow_mod_bit(2, 9nat, 43853nat, 4nat, 1nat, 16nat, 0nat, 256nat, 0nat, 512nat);
    lemma_pow_mod_bit(2, 19nat, 43853nat, 9nat, 1nat, 512nat, 5nat, 42879nat, 1nat, 41905nat);
    lemma_pow_mod_bit(2, 38nat, 43853nat, 19nat, 0nat, 41905nat, 40043nat, 23346nat, 0nat, 23346nat);
    lemma_pow_mod_bit(2, 76nat, 43853nat, 38nat, 0nat, 23346nat, 12428nat, 30632nat, 0nat, 30632nat);
}

/// Square-and-multiply for `2^7708038 mod 7708039`.
proof fn pow_q6_full()
    ensures
        pow_mod(2, 7708038nat, 7708039nat) == 1nat,
{
    lemma_pow_mod_zero(2, 7708039nat);
    lemma_pow_mod_bit(2, 1nat, 7708039nat, 0nat, 1nat, 1nat, 0nat, 1nat, 0nat, 2nat);
    lemma_pow_mod_bit(2, 3nat, 7708039nat, 1nat, 1nat, 2nat, 0nat, 4nat, 0nat, 8nat);
    lemma_pow_mod_bit(2, 7nat, 7708039nat, 3nat, 1nat, 8nat, 0nat, 64nat, 0nat, 128nat);
    lemma_pow_mod_bit(2, 14nat, 7708039nat, 7nat, 0nat, 128nat, 0nat, 16384nat, 0nat, 16384nat);
    lemma_pow_mod_bit(2, 29nat, 7708039nat, 14nat, 1nat, 16384nat, 34nat, 6362130nat, 1nat, 5016221nat);
    lemma_pow_mod_bit(2, 58nat, 7708039nat, 29nat, 0nat, 5016221nat, 3264445nat, 3747486nat, 0nat, 3747486nat);
    lemma_pow_mod_bit(2, 117nat, 7708039nat, 58nat, 1nat, 3747486nat, 1821948nat, 5080224nat, 1nat, 2452409nat);
    lemma_pow_mod_bit(2, 235nat, 7708039nat, 117nat, 1nat, 2452409nat, 780264nat, 4560985nat, 1nat, 1413931nat);
    lemma_pow_mod_bit(2, 470nat, 7708039nat, 235nat, 0nat, 1413931nat, 259365nat, 5337526nat, 0nat, 5337526nat);
    lemma_pow_mod_bit(2, 940nat, 7708039nat, 470nat, 0nat, 5337526nat, 3696035nat, 1875311nat, 0nat, 1875311nat);
    lemma_pow_mod_bit(2, 1881nat, 7708039nat, 940nat, 1nat, 1875311nat, 456249nat, 6261010nat, 1nat, 4813981nat);
    lemma_pow_mod_bit(2, 3763nat, 7708039nat, 1881nat, 1nat, 4813981nat, 3006525nat, 1113886nat, 0nat, 2227772nat);
    lemma_pow_mod_bit(2, 7527nat, 7708039nat, 3763nat, 1nat, 2227772nat, 643869nat, 721093nat, 0nat, 1442186nat);
    lemma_pow_mod_bit(2, 15054nat, 7708039nat, 7527nat, 0nat, 1442186nat, 269835nat, 1755031nat, 0nat, 1755031nat);
    lemma_pow_mod_bit(2, 30109nat, 7708039nat, 15054nat, 1nat, 1755031nat, 399600nat, 1426561nat, 0nat, 2853122nat);
    lemma_pow_mod_bit(2, 60219nat, 7708039nat, 30109nat, 1nat, 2853122nat, 1056079nat, 7027803nat, 1nat, 6347567nat);
    lemma_pow_mod_bit(2, 120438nat, 7708039nat, 60219nat, 0nat, 6347567nat, 5227218nat, 6613987nat, 0nat, 6613987nat);
    lemma_pow_mod_bit(2, 240876nat, 7708039nat, 120438nat, 0nat, 6613987nat, 5675220nat, 6942589nat, 0nat, 6942589nat);
    lemma_pow_mod_bit(2, 481752nat, 7708039nat, 240876nat, 0nat, 6942589nat, 6253152nat, 2533993nat, 0nat, 2533993nat);
    lemma_pow_mod_bit(2, 963504nat, 7708039nat, 481752nat, 0nat, 2533993nat, 833042nat, 299411nat, 0nat, 299411nat);
    lemma_pow_mod_bit(2, 1927009nat, 7708039nat, 963504nat, 1nat, 299411nat, 11630nat, 2453351nat, 0nat, 4906702nat);
    lemma_pow_mod_bit(2, 3854019nat, 7708039nat, 1927009nat, 1nat, 4906702nat, 3123456nat, 3854020nat, 1nat, 1nat);
    lemma_pow_mod_bit(2, 7708038nat, 7708039nat, 3854019nat, 0nat, 1nat, 0nat, 1nat, 0nat, 1nat);
}

/// Square-and-multiply for `2^1326 mod 7708039`.
proof fn pow_q6_part0()
    ensures
        pow_mod(2, 1326nat, 7708039nat) == 5575077nat,
{
    lemma_pow_mod_zero(2, 7708039nat);
    lemma_pow_mod_bit(2, 1nat, 7708039nat, 0nat, 1nat, 1nat, 0nat, 1nat, 0nat, 2nat);
    lemma_pow_mod_bit(2, 2nat, 7708039nat, 1nat, 0nat, 2nat, 0nat, 4nat, 0nat, 4nat);
    lemma_pow_mod_bit(2, 5nat, 7708039nat, 2nat, 1nat, 4nat, 0nat, 16nat, 0nat, 32nat);
    lemma_pow_mod_bit(2, 10nat, 7708039nat, 5nat, 0nat, 32nat, 0nat, 1024nat, 0nat, 1024nat);
    lemma_pow_mod_bit(2, 20nat, 7708039nat, 10nat, 0nat, 1024nat, 0nat, 1048576nat, 0nat, 1048576nat);
    lemma_pow_mod_bit(2, 41nat, 7708039nat, 20nat, 1nat, 1048576nat, 142644nat, 6112660nat, 1nat, 4517281nat);
    lemma_pow_mod_bit(2, 82nat, 7708039nat, 41nat, 0nat, 4517281nat, 2647343nat, 4542584nat, 0nat, 4542584nat);
    lemma_pow_mod_bit(2, 165nat, 7708039nat, 82nat, 1nat, 4542584nat, 2677084nat, 1518780nat, 0nat, 3037560nat);
    lemma_pow_mod_bit(2, 331nat, 7708039nat, 165nat, 1nat, 3037560nat, 1197032nat, 1413352nat, 0nat, 2826704nat);
    lemma_pow_mod_bit(2, 663nat, 7708039nat, 331nat, 1nat, 2826704nat, 1036613nat, 2071709nat, 0nat, 4143418nat);
    lemma_pow_mod_bit(2, 1326nat, 7708039nat, 663nat, 0nat, 4143418nat, 2227273nat, 5575077nat, 0nat, 5575077nat);
}

/// `577` is prime, by trial division up to `24`.
proof fn prime_577()
    ensures
        is_prime(577),
{
    assert(no_divisor_from(577, 25, 24));
    assert(no_divisor_from(577, 24, 24));
    assert(no_divisor_from(577, 23, 24));
    assert(no_divisor_from(577, 22, 24));
    assert(no_divisor_from(577, 21, 24));
    assert(no_divisor_from(577, 20, 24));
    assert(no_divisor_from(577, 19, 24));
    assert(no_divisor_from(577, 18, 24));
    assert(no_divisor_from(577, 17, 24));
    assert(no_divisor_from(577, 16, 24));
    assert(no_divisor_from(577, 15, 24));
    assert(no_divisor_from(577, 14, 24));
    assert(no_divisor_from(577, 13, 24));
    assert(no_divisor_from(577, 12, 24));
    assert(no_divisor_from(577, 11, 24));
    assert(no_divisor_from(577, 10, 24));
    assert(no_divisor_from(577, 9, 24));
    assert(no_divisor_from(577, 8, 24));
    assert(no_divisor_from(577, 7, 24));
    assert(no_divisor_from(577, 6, 24));
    assert(no_divisor_from(577, 5, 24));
    assert(no_divisor_from(577, 4, 24));
    assert(no_divisor_from(577, 3, 24));
    assert(no_divisor_from(577, 2, 24));
    lemma_no_divisor_from(577, 2, 24);
    lemma_prime_by_trial(577, 24);
}

/// `5813` is prime, by trial division up to `76`.
proof fn prime_5813()
    ensures
        is_prime(5813),
{
    assert(no_divisor_from(5813, 77, 76));
    assert(no_divisor_from(5813, 76, 76));
    assert(no_divisor_from(5813, 75, 76));
    assert(no_divisor_from(5813, 74, 76));
    assert(no_divisor_from(5813, 73, 76));
    assert(no_divisor_from(5813, 72, 76));
    assert(no_divisor_from(5813, 71, 76));
    assert(no_divisor_from(5813, 70, 76));
    assert(no_divisor_from(5813, 69, 76));
    assert(no_divisor_from(5813, 68, 76));
    assert(no_divisor_from(5813, 67, 76));
    assert(no_divisor_from(5813, 66, 76));
    assert(no_divisor_from(5813, 65, 76));
    assert(no_divisor_from(5813, 64, 76));
    assert(no_divisor_from(5813, 63, 76));
    assert(no_divisor_from(5813, 62, 76));
    assert(no_divisor_from(5813, 61, 76));
    assert(no_divisor_from(5813, 60, 76));
    assert(no_divisor_from(5813, 59, 76));
    assert(no_divisor_from(5813, 58, 76));
    assert(no_divisor_from(5813, 57, 76));
    assert(no_divisor_from(5813, 56, 76));
    assert(no_divisor_from(5813, 55, 76));
    assert(no_divisor_from(5813, 54, 76));
    assert(no_divisor_from(5813, 53, 76));
    assert(no_divisor_from(5813, 52, 76));
    assert(no_divisor_from(5813, 51, 76));
    assert(no_divisor_from(5813, 50, 76));
    assert(no_divisor_from(5813, 49, 76));
    assert(no_divisor_from(5813, 48, 76));
    assert(no_divisor_from(5813, 47, 76));
    assert(no_divisor_from(5813, 46, 76));
    assert(no_divisor_from(5813, 45, 76));
    assert(no_divisor_from(5813, 44, 76));
    assert(no_divisor_from(5813, 43, 76));
    assert(no_divisor_from(5813, 42, 76));
    assert(no_divisor_from(5813, 41, 76));
    assert(no_divisor_from(5813, 40, 76));
    assert(no_divisor_from(5813, 39, 76));
    assert(no_divisor_from(5813, 38, 76));
    assert(no_divisor_from(5813, 37, 76));
    assert(no_divisor_from(5813, 36, 76));
    assert(no_divisor_from(5813, 35, 76));
    assert(no_divisor_from(5813, 34, 76));
    assert(no_divisor_from(5813, 33, 76));
    assert(no_divisor_from(5813, 32, 76));
    assert(no_divisor_from(5813, 31, 76));
    assert(no_divisor_from(5813, 30, 76));
    assert(no_divisor_from(5813, 29, 76));
    assert(no_divisor_from(5813, 28, 76));
    assert(no_divisor_from(5813, 27, 76));
    assert(no_divisor_from(5813, 26, 76));
    assert(no_divisor_from(5813, 25, 76));
    assert(no_divisor_from(5813, 24, 76));
    assert(no_divisor_from(5813, 23, 76));
    assert(no_divisor_from(5813, 22, 76));
    assert(no_divisor_from(5813, 21, 76));
    assert(no_divisor_from(5813, 20, 76));
    assert(no_divisor_from(5813, 19, 76));
    assert(no_divisor_from(5813, 18, 76));
    assert(no_divisor_from(5813, 17, 76));
    assert(no_divisor_from(5813, 16, 76));
    assert(no_divisor_from(5813, 15, 76));
    assert(no_divisor_from(5813, 14, 76));
    assert(no_divisor_from(5813, 13, 76));
    assert(no_divisor_from(5813, 12, 76));
    assert(no_divisor_from(5813, 11, 76));
    assert(no_divisor_from(5813, 10, 76));
    assert(no_divisor_from(5813, 9, 76));
    assert(no_divisor_from(5813, 8, 76));
    assert(no_divisor_from(5813, 7, 76));
    assert(no_divisor_from(5813, 6, 76));
    assert(no_divisor_from(5813, 5, 76));
    assert(no_divisor_from(5813, 4, 76));
    assert(no_divisor_from(5813, 3, 76));
    assert(no_divisor_from(5813, 2, 76));
    lemma_no_divisor_from(5813, 2, 76);
    lemma_prime_by_trial(5813, 76);
}

/// `43853` is prime: Pocklington with base 2 and `577` dividing `n - 1`.
proof fn prime_q5()
    ensures
        is_prime(43853nat),
{
    prime_577();
    pow_q5_full();
    pow_q5_part0();
    assert(((43853nat - 1) as nat / 577nat) as nat == 76nat);
    assert(pock_residue(43853nat, 577nat, 2) == 30631nat);
    assert((30631nat * 22026nat) % 43853nat == 1);
    assert((43853nat - 1) as nat % 577nat == 0);
    assert(577nat * 577nat > 43853nat);
    lemma_pocklington(43853nat, 577nat, 2, 22026nat);
}

/// `9033719` is prime: Pocklington with base 2 and `43853` dividing `n - 1`.
proof fn prime_q4()
    ensures
        is_prime(9033719nat),
{
    prime_q5();
    pow_q4_full();
    pow_q4_part0();
    assert(((9033719nat - 1) as nat / 43853nat) as nat == 206nat);
    assert(pock_residue(9033719nat, 43853nat, 2) == 5420790nat);
    assert((5420790nat * 1452252nat) % 9033719nat == 1);
    assert((9033719nat - 1) as nat % 43853nat == 0);
    assert(43853nat * 43853nat > 9033719nat);
    lemma_pocklington(9033719nat, 43853nat, 2, 1452252nat);
}

/// `7708039` is prime: Pocklington with base 2 and `5813` dividing `n - 1`.
proof fn prime_q6()
    ensures
        is_prime(7708039nat),
{
    prime_5813();
    pow_q6_full();
    pow_q6_part0();
    assert(((7708039nat - 1) as nat / 5813nat) as nat == 1326nat);
    assert(pock_residue(7708039nat, 5813nat, 2) == 5575076nat);
    assert((5575076nat * 3329403nat) % 7708039nat == 1);
    assert((7708039nat - 1) as nat % 5813nat == 0);
    assert(5813nat * 5813nat > 7708039nat);
    lemma_pocklington(7708039nat, 5813nat, 2, 3329403nat);
}

/// `375316201424150181017` is prime: Pocklington with base 2 and `9033719` and `7708039` dividing `n - 1`.
proof fn prime_q3()
    ensures
        is_prime(375316201424150181017nat),
{
    prime_q4();
    prime_q6();
    pow_q3_full_0();
    pow_q3_full_1();
    pow_q3_part0();
    assert(((375316201424150181017nat - 1) as nat / 9033719nat) as nat == 41546145217064nat);
    assert(pock_residue(375316201424150181017nat, 9033719nat, 2) == 285950582996613146224nat);
    assert((285950582996613146224nat * 88257157307282205688nat) % 375316201424150181017nat == 1);
    assert((375316201424150181017nat - 1) as nat % 9033719nat == 0);
    pow_q3_part1();
    assert(((375316201424150181017nat - 1) as nat / 7708039nat) as nat == 48691528600744nat);
    assert(pock_residue(375316201424150181017nat, 7708039nat, 2) == 160247088878246180598nat);
    assert((160247088878246180598nat * 111226911265293989348nat) % 375316201424150181017nat == 1);
    assert((375316201424150181017nat - 1) as nat % 7708039nat == 0);
    assert(9033719nat * 7708039nat == 69632258367041nat);
    assert(69632258367041nat * 69632258367041nat > 375316201424150181017nat);
    lemma_pocklington2(375316201424150181017nat, 9033719nat, 7708039nat, 2, 88257157307282205688nat, 111226911265293989348nat);
}

/// `2198678800047015135107398648734599` is prime: Pocklington with base 2 and `375316201424150181017` dividing `n - 1`.
proof fn prime_q2()
    ensures
        is_prime(2198678800047015135107398648734599nat),
{
    prime_q3();
    pow_q2_full_0();
    pow_q2_full_1();
    pow_q2_part0();
    assert(((2198678800047015135107398648734599nat - 1) as nat / 375316201424150181017nat) as nat == 5858203807094nat);
    assert(pock_residue(2198678800047015135107398648734599nat, 375316201424150181017nat, 2) == 2044658520138743725757622012380268nat);
    assert((2044658520138743725757622012380268nat * 2065375608387325267717522757489910nat) % 2198678800047015135107398648734599nat == 1);
    assert((2198678800047015135107398648734599nat - 1) as nat % 375316201424150181017nat == 0);
    assert(375316201424150181017nat * 375316201424150181017nat > 2198678800047015135107398648734599nat);
    lemma_pocklington(2198678800047015135107398648734599nat, 375316201424150181017nat, 2, 2065375608387325267717522757489910nat);
}

/// `44140943745558712684180415615833599051864440750596559` is prime: Pocklington with base 2 and `2198678800047015135107398648734599` dividing `n - 1`.
proof fn prime_q1()
    ensures
        is_prime(44140943745558712684180415615833599051864440750596559nat),
{
    prime_q2();
    pow_q1_full_0();
    pow_q1_full_1();
    pow_q1_full_2();
    pow_q1_full_3();
    pow_q1_full_4();
    pow_q1_full_5();
    pow_q1_full_6();
    pow_q1_full_7();
    pow_q1_full_8();
    pow_q1_full_9();
    pow_q1_full_10();
    pow_q1_part0_0();
    pow_q1_part0_1();
    pow_q1_part0_2();
    pow_q1_part0_3();
    pow_q1_part0_4();
    assert(((44140943745558712684180415615833599051864440750596559nat - 1) as nat / 2198678800047015135107398648734599nat) as nat == 20076121962250616642nat);
    assert(pock_residue(44140943745558712684180415615833599051864440750596559nat, 2198678800047015135107398648734599nat, 2) == 42921973966644470157700825326698677936519197358731542nat);
    assert((42921973966644470157700825326698677936519197358731542nat * 23511916685598051324331163717310843411102328464249355nat) % 44140943745558712684180415615833599051864440750596559nat == 1);
    assert((44140943745558712684180415615833599051864440750596559nat - 1) as nat % 2198678800047015135107398648734599nat == 0);
    assert(2198678800047015135107398648734599nat * 2198678800047015135107398648734599nat > 44140943745558712684180415615833599051864440750596559nat);
    lemma_pocklington(44140943745558712684180415615833599051864440750596559nat, 2198678800047015135107398648734599nat, 2, 23511916685598051324331163717310843411102328464249355nat);
}

/// `2261564242916331941866620800950935700259179388000792266395655937654553313279` is prime: Pocklington with base 2 and `44140943745558712684180415615833599051864440750596559` dividing `n - 1`.
pub proof fn lemma_modulus_prime()
    ensures
        is_prime(modulus()),
{
    prime_q1();
    pow_p_full_0();
    pow_p_full_1();
    pow_p_full_2();
    pow_p_full_3();
    pow_p_full_4();
    pow_p_full_5();
    pow_p_full_6();
    pow_p_full_7();
    pow_p_full_8();
    pow_p_full_9();
    pow_p_full_10();
    pow_p_full_11();
    pow_p_full_12();
    pow_p_full_13();
    pow_p_full_14();
    pow_p_full_15();
    pow_p_part0_0();
    pow_p_part0_1();
    pow_p_part0_2();
    pow_p_part0_3();
    pow_p_part0_4();
    assert(((2261564242916331941866620800950935700259179388000792266395655937654553313279nat - 1) as nat / 44140943745558712684180415615833599051864440750596559nat) as nat == 51235067740115583694242nat);
    assert(pock_residue(2261564242916331941866620800950935700259179388000792266395655937654553313279nat, 44140943745558712684180415615833599051864440750596559nat, 2) == 527749648413043513627077542133883556015166292224636035737200427873108506883nat);
    assert((527749648413043513627077542133883556015166292224636035737200427873108506883nat * 816350814136412626193153451957275467629023077537251661757795271328161416348nat) % 2261564242916331941866620800950935700259179388000792266395655937654553313279nat == 1);
    assert((2261564242916331941866620800950935700259179388000792266395655937654553313279nat - 1) as nat % 44140943745558712684180415615833599051864440750596559nat == 0);
    assert(44140943745558712684180415615833599051864440750596559nat * 44140943745558712684180415615833599051864440750596559nat > 2261564242916331941866620800950935700259179388000792266395655937654553313279nat);
    lemma_pocklington(2261564242916331941866620800950935700259179388000792266395655937654553313279nat, 44140943745558712684180415615833599051864440750596559nat, 2, 816350814136412626193153451957275467629023077537251661757795271328161416348nat);
    assert(modulus() == 2261564242916331941866620800950935700259179388000792266395655937654553313279nat);
}

} // verus!
